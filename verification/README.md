# landing_gear

Verified model of the landing gear control and interface units (LGCIU) of an
Airbus aircraft, written in Verus.

- `src/shared.rs` – gear legs, unit identifiers, buses, failures, tick context.
- `src/landing_gear.rs` – weight on wheels of each leg; the gear position sensors trait.
- `src/sensors.rs` – the inputs of one unit and what it derives from them.
- `src/gear_state.rs` – the extension/retraction state machine.
- `src/lgciu.rs` – one unit: gear cycle, fault monitoring, lever lock request.
- `src/coordinator.rs` – master selection and the gear lever.
- `src/lgciu_set.rs` – the pair of units.
- `app/lib.rs` – simulator side: compression ratios and variable names.
