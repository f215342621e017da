# netstack

A user-space network stack. Raw IP frames go in; TCP streams and UDP messages
come out, and the other way round. TCP itself is smoltcp's.

The library in `src/` holds what the stack decides and computes, with contracts
that Verus proves:

- `stack`, `filter`, `packet`, `addr`: which frames enter, and where they go.
- `listener`, `table`, `iface`: when a connection is opened, how its socket is
  serviced, and how the interface accepts packets for every address.
- `control`, `shared`, `stream`: the buffers between an application and its
  socket, and who is woken when.
- `stream_laws`, `history`, `table_laws`: what holds of a stream at every step,
  over its whole life, and between it and the socket of its connection.
- `udp`: messages, and the packets that carry them.
- `relay`: copying packets between the stack and another carrier.
- `socket`, `ring`, `waker`: what is known of smoltcp's socket and ring buffer,
  and of wakers.
- `device`, `error`: what the virtual device can do, and what can go wrong.

`app/` holds the tasks, the channels and the traits of tokio and futures around
it. `tests/` runs the library, with two interfaces that talk to each other.
