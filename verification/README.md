# flashthing

Flashes the Spotify Car Thing, either through the vendor burn mode of its Amlogic chip or over fastboot on mainline
U-Boot.

`src/` holds what the flasher decides: how requests are spelled and replies are read, which sectors a payload goes to,
when a chunk may be skipped, what is tried again and when to give up. It touches no device. A procedure of several
exchanges is a state machine: its constructor gives the first action, and `resume` takes in how an action went and
gives the next one. Verus proves that the code keeps to the contracts, and that the laws hold which are stated as
public proof functions. Some of them are

- `storage::erase_stays_inside_the_write`: erasing never reaches outside the range that is written;
- `fastboot::raw_effect::raw_write_lays_down_the_payload`: a raw write that succeeds leaves the payload on the disk,
  whether or not zeros were skipped, and nothing else changed;
- `amlogic::stream_effect::stream_lays_down_the_payload` and `stream_touches_only_its_range`: a write through the
  vendor protocol that succeeds leaves the whole payload on the disk, filled up with zeros to a whole sector, and
  nothing else changed;
- `amlogic::bootstrap::bl2_stream_ends`: booting through BL2 ends, whatever the device answers;
- `boot_image::boot_image_is_idempotent`: a bootloader gets an info sector in front of it, and never a second one.

`app/` is the rest: USB transports, files, clocks, the command line, and the bindings for Node and for the browser. The
browser part is built for `wasm32` and needs none of the native dependencies. The binaries that a device is booted with,
and the stock partition table, are read from the directory that `FLASHTHING_RESOURCES` names, by default `resources`.
