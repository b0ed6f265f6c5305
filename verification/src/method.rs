use vstd::prelude::*;

use crate::text::same_text;

verus! {

/// The HTTP methods that the proxy carries.
#[derive(Debug, Clone, Copy, PartialEq, Eq, Structural)]
pub enum Method {
    Get,
    Post,
    Put,
    Delete,
    Options,
    Patch,
    Trace,
}

/// The method of a request is not one that the proxy carries.
#[derive(Debug, Clone, Copy, PartialEq, Eq, Structural)]
pub struct UnsupportedMethod;

impl Method {
    /// The standard token of the method, as it stands in a request line.
    pub open spec fn spec_name(self) -> Seq<char> {
        match self {
            Method::Get => seq!['G', 'E', 'T'],
            Method::Post => seq!['P', 'O', 'S', 'T'],
            Method::Put => seq!['P', 'U', 'T'],
            Method::Delete => seq!['D', 'E', 'L', 'E', 'T', 'E'],
            Method::Options => seq!['O', 'P', 'T', 'I', 'O', 'N', 'S'],
            Method::Patch => seq!['P', 'A', 'T', 'C', 'H'],
            Method::Trace => seq!['T', 'R', 'A', 'C', 'E'],
        }
    }

    /// The standard token of the method.
    pub fn name(&self) -> (s: &'static str)
        ensures
            s@ == self.spec_name(),
    {
        match self {
            Method::Get => {
                proof {
                    reveal_strlit("GET");
                }
                "GET"
            },
            Method::Post => {
                proof {
                    reveal_strlit("POST");
                }
                "POST"
            },
            Method::Put => {
                proof {
                    reveal_strlit("PUT");
                }
                "PUT"
            },
            Method::Delete => {
                proof {
                    reveal_strlit("DELETE");
                }
                "DELETE"
            },
            Method::Options => {
                proof {
                    reveal_strlit("OPTIONS");
                }
                "OPTIONS"
            },
            Method::Patch => {
                proof {
                    reveal_strlit("PATCH");
                }
                "PATCH"
            },
            Method::Trace => {
                proof {
                    reveal_strlit("TRACE");
                }
                "TRACE"
            },
        }
    }

    /// The method whose token is `name`; an error for any other token
    /// (CONNECT, HEAD, extension methods, lower-case spellings).
    pub fn try_from(name: &str) -> (r: Result<Method, UnsupportedMethod>)
        ensures
            r == match spec_from_name(name@) {
                Some(m) => Ok::<Method, UnsupportedMethod>(m),
                None => Err(UnsupportedMethod),
            },
    {
        let all = [
            Method::Get,
            Method::Post,
            Method::Put,
            Method::Delete,
            Method::Options,
            Method::Patch,
            Method::Trace,
        ];
        let mut i: usize = 0;
        while i < 7
            invariant
                0 <= i <= 7,
                all@ == seq![
                    Method::Get,
                    Method::Post,
                    Method::Put,
                    Method::Delete,
                    Method::Options,
                    Method::Patch,
                    Method::Trace,
                ],
                forall|j: int| 0 <= j < i ==> (#[trigger] all@[j]).spec_name() != name@,
            decreases 7 - i,
        {
            let m = all[i];
            if same_text(m.name(), name) {
                proof {
                    law_name_round_trip(m);
                }
                return Ok(m);
            }
            i = i + 1;
        }
        assert(all@[0].spec_name() != name@);
        assert(all@[1].spec_name() != name@);
        assert(all@[2].spec_name() != name@);
        assert(all@[3].spec_name() != name@);
        assert(all@[4].spec_name() != name@);
        assert(all@[5].spec_name() != name@);
        assert(all@[6].spec_name() != name@);
        Err(UnsupportedMethod)
    }
}

/// The method named by a token, if the proxy carries one by that name.
pub open spec fn spec_from_name(name: Seq<char>) -> Option<Method> {
    if name == Method::Get.spec_name() {
        Some(Method::Get)
    } else if name == Method::Post.spec_name() {
        Some(Method::Post)
    } else if name == Method::Put.spec_name() {
        Some(Method::Put)
    } else if name == Method::Delete.spec_name() {
        Some(Method::Delete)
    } else if name == Method::Options.spec_name() {
        Some(Method::Options)
    } else if name == Method::Patch.spec_name() {
        Some(Method::Patch)
    } else if name == Method::Trace.spec_name() {
        Some(Method::Trace)
    } else {
        None
    }
}

impl Default for Method {
    fn default() -> (m: Method)
        ensures
            m == Method::Get,
    {
        Method::Get
    }
}

/// Reading back the token of a method gives the same method: by the
/// contracts of `Method::name` and `Method::try_from`,
/// `Method::try_from(m.name())` is `Ok(m)` for every method `m`.
pub proof fn law_name_round_trip(m: Method)
    ensures
        spec_from_name(m.spec_name()) == Some(m),
{
    assert(Method::Get.spec_name() != Method::Post.spec_name());
    assert(Method::Get.spec_name()[0] != Method::Put.spec_name()[1]);
    match m {
        Method::Get => {},
        Method::Post => {
            assert(Method::Post.spec_name() != Method::Get.spec_name());
        },
        Method::Put => {
            assert(Method::Put.spec_name() != Method::Get.spec_name());
            assert(Method::Put.spec_name()[1] != Method::Post.spec_name()[1]);
        },
        Method::Delete => {
            assert(Method::Delete.spec_name().len() == 6);
        },
        Method::Options => {
            assert(Method::Options.spec_name().len() == 7);
        },
        Method::Patch => {
            assert(Method::Patch.spec_name()[1] != Method::Post.spec_name()[1]);
            assert(Method::Patch.spec_name().len() != Method::Put.spec_name().len());
            assert(Method::Patch.spec_name().len() != Method::Get.spec_name().len());
        },
        Method::Trace => {
            assert(Method::Trace.spec_name()[0] != Method::Post.spec_name()[0]);
            assert(Method::Trace.spec_name()[0] != Method::Patch.spec_name()[0]);
            assert(Method::Trace.spec_name().len() != Method::Put.spec_name().len());
            assert(Method::Trace.spec_name().len() != Method::Get.spec_name().len());
        },
    }
}

/// A token that names a method is that method's token: the parse accepts
/// nothing but the seven standard tokens.
pub proof fn law_parsed_name_is_exact(name: Seq<char>)
    ensures
        spec_from_name(name) matches Some(m) ==> m.spec_name() == name,
{
}

} // verus!
