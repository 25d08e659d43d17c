# nxt

Commands and replies of the LEGO Mindstorms NXT brick, verified with Verus.

* `src/` is the library. It builds the bytes of every command, checks what
  the brick answers, and takes the data out of the reply. It does no I/O.
  * `wire`, `opcode`, `protocol`: layout of values and packets
  * `exchange`: one command and its reply
  * `nxt`, `direct`, `files`, `modules`, `brick`, `display`: the commands
  * `reply`: what the data of a reply means
  * `motor`, `sensor`, `system`: ports, modes, handles
  * `laws`: what holds of the library as a whole
* `app/` is the asynchronous connection that moves the bytes.
* `tests/` runs the library on concrete packets.

A command, the answer and the data in it:

```rust
use nxt::Nxt;

fn battery_level(link: &mut impl Link) -> Result<u16, nxt::Error> {
    let nxt = Nxt::unnamed();
    let req = nxt.get_battery_level()?;
    let written = link.write(req.bytes());
    let reply = req.sent(written)?.recv(&link.read())?;
    Nxt::get_battery_level_reply(reply)
}
```
