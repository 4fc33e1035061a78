# async_smoltcp

A `smoltcp` TCP/IP stack whose sockets are bridged to packet channels, so that
async code can read and write them, with a virtual TUN device that takes its
frames from callbacks (a VPN client, say) instead of the kernel.

The library under `src/` holds the logic, stated and proved with Verus:

- `spin`: one step of moving data between a `smoltcp` socket and its channels,
  and the decisions taken on what a channel gave;
- `registry`: the table of the stack's sockets and what adding one makes;
- `smol_socket`: the application's end of a socket (reads, writes, shutdown);
- `virtual_tun`: the virtual device, its received frames and tokens;
- `config`: the defaults a new stack is made with, and its routing table;
- `vpn`: what the virtual device does with a VPN client's answers;
- `packet_log`: what is logged about a packet that passes the device;
- `error`, `packet`: the error and packet types;
- `net`, `channel`: the `smoltcp`, `crossbeam_channel` and `futures` calls that
  the logic makes, each with the contract it is trusted to meet.

`app/` is the runtime around it: the `smoltcp` device traits, the stack that
owns the interface and its polling thread, and `tokio`'s read/write traits.
