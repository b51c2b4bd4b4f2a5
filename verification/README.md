# pupil_osc

Scene brightness to avatar pupil, over OSC: a capture of the VRChat window is
reduced to one centre-weighted luminance, run through a logarithmic,
asymmetrically damped response, and sent to VRChat as a -1..1 float.

- `src/` is the verified library (Verus): frame addressing and grid sampling
  (`luminance`), the send/heartbeat decision (`osc`), the OSC address and the
  accepted capture rate (`config`), and how the capture thread follows the
  VRChat window (`watch`). It holds no floating-point numbers.
- `app/` is the program around it: config file I/O (serde, toml), the
  floating-point response and weighting, the UDP socket and rosc encoding, and
  the Windows capture.
- `tests/` exercises the library.
