# cc-plugin-aorus

Fan control for Gigabyte AORUS laptops under CoolerControl, with the control
logic verified.

- `src/` is the verified library:
  - `fan.rs`: fan modes and the mapping from a duty in percent to the driver's
    0–227 `fan_custom_speed` value;
  - `text.rs`, `sysfs.rs`: trimming and reading the numbers and names that the
    driver exposes through sysfs and hwmon;
  - `control.rs`: the controller behind the shared "Laptop Fans" channel, as a
    state machine that asks for outside work (D-Bus writes, the mode-switch
    pause, reading `fan_mode`) and is told how it went;
  - `service.rs`: the device's channels, request checks, health, status
    readings and the monitor's logging rule;
  - `guarantees.rs`: properties proved across operations.
- `app/` performs the outside work: sysfs reads, gigabyted over D-Bus (zbus),
  tokio timing and locking, and the CoolerControl-facing service.
