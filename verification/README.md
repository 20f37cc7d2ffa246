# klyhostservice

A host service for virtual machines: it reads its configuration, sets up
libvirt event handling, keeps an MQTT subscriber session alive, and talks to
guests over Unix sockets.

- `src/` is the verified library (Verus): the configuration model, the
  decisions of the MQTT session and of the libvirt setup as step functions,
  the hypervisor and domain reports, the guest registry with its channel
  sends through tokio, and download accumulation.
- `app/` is the program around it: file, network and libvirt I/O, the
  async runtime, logging, and the serde copies of the configuration types.
- `tests/` runs the library on concrete values.
