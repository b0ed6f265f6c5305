# import_http

An HTTP proxy that crosses a one-way-at-a-time datagram link.

* The **sender** accepts HTTP requests, gives each one a random id, registers
  a waiter for its response, sends the request in a datagram to the receiver
  and answers with the response that comes back (504 when none comes in time,
  502 when the datagram cannot be sent, 405/413/415 for requests it does not
  carry).
* The **receiver** decodes each datagram, performs the request against its
  target and sends the response back under the same id.

`src/` is the verified library (Verus): the request and body rules, the
method tokens, the target address text, the table of waiting requests, and
the step-by-step decisions of both sides (`exchange` for the sender,
`relay` for the receiver, `listener` for responses coming back).
`app/` is the program around it: sockets, the HTTP server and client,
the postcard wire format and the configuration file. Run it as
`import-http sender` or `import-http receiver`, with `CONFIG_PATH` naming a
TOML file.
