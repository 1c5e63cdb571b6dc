# AntiSupport

A desktop program that holds a license for a session, or runs a trial, and
starts and kills a set of target programs. What it decides and computes is a
library, proved correct with Verus; the window, the network and the processes
are ordinary Rust around it.

- `src/`: the verified library. `tdc_app.rs` takes the program from one event to
  the next and returns what has to be done as values; `model.rs` states the same
  as a state machine, and `laws.rs` what holds of every run of it. The other
  modules cover the hardware id, the requests to the license server, the target
  programs, the screens, the end of life of the version, and text and time.
- `app/`: the program: draws the screens, talks to the license server, and
  carries out what the library asks for.
- `tests/`: the library on concrete values.

The library rests on four calls that are not proved: `sha2::Sha256::digest`,
`hex::encode`, `chrono::NaiveDate::from_ymd_opt` and `str::to_lowercase`. What is
taken for granted of each stands in the contract of the function that makes the
call.

The user interface is built on `eframe`; `winit` is named beside it only to
select the X11 backend for builds on Linux.
