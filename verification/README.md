# neovi_mic_rs

Finds neoVI MIC2 devices on the USB bus and describes them: the MIC's USB hub
and the devices attached to it (FT245R IO chip, GPS, audio), with the FT245R's
serial number.

- `src/mic.rs`: the device descriptions, their classification by vendor and
  product id, hub selection, the grouping of a scan's devices under their hub,
  and `find_neovi_mics`, with their contracts and laws.
- `src/usb.rs`: the calls into `rusb`, each behind a trusted item, and the
  `libusb` error kinds as a plain enum.
- `src/types.rs`: the result type.
- `app/`: Python bindings (pyo3) over the library.
