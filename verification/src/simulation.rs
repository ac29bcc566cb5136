//! Simulated vehicle signals: the ambient air temperature that the property
//! providers publish, and the climate of the mixed sample's vehicle.

use vstd::prelude::*;

verus! {

/// The lowest temperature of the simulated ambient air.
pub const MIN_SIMULATED_TEMPERATURE: i32 = 65;
/// The highest temperature of the simulated ambient air.
pub const MAX_SIMULATED_TEMPERATURE: i32 = 85;

/// The next simulated ambient air temperature and direction.
pub open spec fn spec_next_ambient_air_temperature(temperature: int, is_increasing: bool) -> (int, bool) {
    if is_increasing {
        if temperature == 85 {
            (temperature - 1, false)
        } else {
            (temperature + 1, true)
        }
    } else if temperature == 65 {
        (temperature + 1, true)
    } else {
        (temperature - 1, false)
    }
}

/// Calculate the new temperature.
/// It bounces back and forth between 65 and 85 degrees.
///
/// # Arguments
/// * `temperature` - The current temperature.
/// * `is_increasing` - Whether the temperature is rising.
pub fn next_ambient_air_temperature(temperature: i32, is_increasing: bool) -> (r: (i32, bool))
    requires
        !(is_increasing && temperature == i32::MAX),
        !(!is_increasing && temperature == i32::MIN),
    ensures
        (r.0 as int, r.1) == spec_next_ambient_air_temperature(temperature as int, is_increasing),
{
    if is_increasing {
        if temperature == 85 {
            (temperature - 1, false)
        } else {
            (temperature + 1, true)
        }
    } else if temperature == 65 {
        (temperature + 1, true)
    } else {
        (temperature - 1, false)
    }
}

/// A temperature between 65 and 85 stays between them, and every step moves
/// it by exactly one degree.
pub proof fn lemma_temperature_stays_in_band(temperature: int, is_increasing: bool)
    requires
        MIN_SIMULATED_TEMPERATURE <= temperature <= MAX_SIMULATED_TEMPERATURE,
    ensures
        MIN_SIMULATED_TEMPERATURE <= spec_next_ambient_air_temperature(temperature, is_increasing).0 <= MAX_SIMULATED_TEMPERATURE,
        spec_next_ambient_air_temperature(temperature, is_increasing).0 == temperature + 1
            || spec_next_ambient_air_temperature(temperature, is_increasing).0 == temperature - 1,
{
}

/// `n` steps of the simulated temperature.
pub open spec fn ambient_air_temperature_after(temperature: int, is_increasing: bool, n: nat) -> (int, bool)
    decreases n,
{
    if n == 0 {
        (temperature, is_increasing)
    } else {
        let (t, inc) = spec_next_ambient_air_temperature(temperature, is_increasing);
        ambient_air_temperature_after(t, inc, (n - 1) as nat)
    }
}

/// However many steps are taken, a temperature that starts between 65 and 85
/// stays between them.
pub proof fn lemma_temperature_always_in_band(temperature: int, is_increasing: bool, n: nat)
    requires
        MIN_SIMULATED_TEMPERATURE <= temperature <= MAX_SIMULATED_TEMPERATURE,
    ensures
        MIN_SIMULATED_TEMPERATURE <= ambient_air_temperature_after(temperature, is_increasing, n).0 <= MAX_SIMULATED_TEMPERATURE,
    decreases n,
{
    if n > 0 {
        let (t, inc) = spec_next_ambient_air_temperature(temperature, is_increasing);
        lemma_temperature_always_in_band(t, inc, (n - 1) as nat);
    }
}

/// One more step after `n` steps is the next temperature of the `n`-th.
proof fn lemma_one_more_step(temperature: int, is_increasing: bool, n: nat)
    ensures
        ambient_air_temperature_after(temperature, is_increasing, n + 1) == spec_next_ambient_air_temperature(
            ambient_air_temperature_after(temperature, is_increasing, n).0,
            ambient_air_temperature_after(temperature, is_increasing, n).1,
        ),
    decreases n,
{
    let (t, inc) = spec_next_ambient_air_temperature(temperature, is_increasing);
    if n == 0 {
        assert(ambient_air_temperature_after(t, inc, 0) == (t, inc));
    } else {
        lemma_one_more_step(t, inc, (n - 1) as nat);
    }
}

/// The published stream starts at 75, rising; every value lies between 65
/// and 85; the next value is one degree up while rising and one degree down
/// while falling; and the direction turns only at 85 (to falling) and at 65
/// (to rising). So the values run 75 to 85, then 84 down to 65, then 66 up
/// to 85, and so on.
pub proof fn lemma_temperature_stream(k: nat)
    ensures
        ambient_air_temperature_after(75, true, 0) == (75int, true),
        MIN_SIMULATED_TEMPERATURE <= ambient_air_temperature_after(75, true, k).0 <= MAX_SIMULATED_TEMPERATURE,
        ({
            let (v, rising) = ambient_air_temperature_after(75, true, k);
            let (w, rising_next) = ambient_air_temperature_after(75, true, k + 1);
            &&& rising_next ==> w == v + 1
            &&& !rising_next ==> w == v - 1
            &&& rising_next != rising ==> (rising && v == 85) || (!rising && v == 65)
        }),
{
    lemma_temperature_always_in_band(75, true, k);
    lemma_one_more_step(75, true, k);
}

/// What the temperature stream does after trying to publish `temperature`:
/// after a failed publish it stops (`None`); otherwise it goes on with the
/// next temperature.
///
/// # Arguments
/// * `temperature` - The temperature just published.
/// * `is_increasing` - Whether the temperature is rising.
/// * `published` - Whether the publish succeeded.
pub fn next_stream_value(temperature: i32, is_increasing: bool, published: bool) -> (r: Option<(i32, bool)>)
    requires
        published ==> !(is_increasing && temperature == i32::MAX) && !(!is_increasing && temperature == i32::MIN),
    ensures
        !published ==> r is None,
        published ==> (r matches Some(n) && (n.0 as int, n.1) == spec_next_ambient_air_temperature(temperature as int, is_increasing)),
{
    if published {
        Some(next_ambient_air_temperature(temperature, is_increasing))
    } else {
        None
    }
}

/// The temperatures the stream tries to publish from `temperature`, when the
/// publishes come out as `outcomes` say: each value is published in turn, and
/// the stream stops after the first failed publish.
pub open spec fn stream_values(temperature: int, is_increasing: bool, outcomes: Seq<bool>) -> Seq<int>
    decreases outcomes.len(),
{
    if outcomes.len() == 0 {
        Seq::empty()
    } else if outcomes[0] {
        let (t, inc) = spec_next_ambient_air_temperature(temperature, is_increasing);
        seq![temperature] + stream_values(t, inc, outcomes.drop_first())
    } else {
        seq![temperature]
    }
}

/// The `k`-th value the stream tries to publish is the temperature after `k`
/// steps, every publish before the last succeeded, and the stream stops at
/// the first failed publish (or when the outcomes run out).
pub proof fn lemma_stream_values(temperature: int, is_increasing: bool, outcomes: Seq<bool>)
    ensures
        stream_values(temperature, is_increasing, outcomes).len() <= outcomes.len(),
        forall|k: int| 0 <= k < stream_values(temperature, is_increasing, outcomes).len()
            ==> #[trigger] stream_values(temperature, is_increasing, outcomes)[k]
                == ambient_air_temperature_after(temperature, is_increasing, k as nat).0,
        forall|k: int| 0 <= k < stream_values(temperature, is_increasing, outcomes).len() - 1 ==> #[trigger] outcomes[k],
        stream_values(temperature, is_increasing, outcomes).len() == outcomes.len()
            || !outcomes[stream_values(temperature, is_increasing, outcomes).len() - 1],
    decreases outcomes.len(),
{
    if outcomes.len() > 0 && outcomes[0] {
        let (t, inc) = spec_next_ambient_air_temperature(temperature, is_increasing);
        let rest = outcomes.drop_first();
        lemma_stream_values(t, inc, rest);
        let vals = stream_values(temperature, is_increasing, outcomes);
        let rvals = stream_values(t, inc, rest);
        assert(vals == seq![temperature] + rvals);
        assert forall|k: int| 0 <= k < vals.len() implies #[trigger] vals[k]
            == ambient_air_temperature_after(temperature, is_increasing, k as nat).0 by {
            if k > 0 {
                assert(vals[k] == rvals[k - 1]);
                assert(ambient_air_temperature_after(temperature, is_increasing, k as nat)
                    == ambient_air_temperature_after(t, inc, (k - 1) as nat));
            }
        }
        assert forall|k: int| 0 <= k < vals.len() - 1 implies #[trigger] outcomes[k] by {
            if k > 0 {
                assert(outcomes[k] == rest[k - 1]);
            }
        }
        if vals.len() != outcomes.len() {
            assert(outcomes[vals.len() - 1] == rest[rvals.len() - 1]);
        }
    }
}

/// The published stream from its start at 75, rising: the values are the
/// temperatures after 0, 1, 2, ... steps (so 75 first, then 76 up to 85, 84
/// down to 65, 66 up again), each between 65 and 85, and the stream stops
/// after the first failed publish.
pub proof fn lemma_published_stream(outcomes: Seq<bool>)
    ensures
        stream_values(75, true, outcomes).len() > 0 ==> stream_values(75, true, outcomes)[0] == 75,
        forall|k: int| 0 <= k < stream_values(75, true, outcomes).len() ==> {
            &&& #[trigger] stream_values(75, true, outcomes)[k] == ambient_air_temperature_after(75, true, k as nat).0
            &&& MIN_SIMULATED_TEMPERATURE <= stream_values(75, true, outcomes)[k] <= MAX_SIMULATED_TEMPERATURE
        },
        forall|k: int| 0 <= k < stream_values(75, true, outcomes).len() - 1 ==> #[trigger] outcomes[k],
        stream_values(75, true, outcomes).len() == outcomes.len()
            || !outcomes[stream_values(75, true, outcomes).len() - 1],
{
    lemma_stream_values(75, true, outcomes);
    assert forall|k: int| 0 <= k < stream_values(75, true, outcomes).len() implies {
        &&& #[trigger] stream_values(75, true, outcomes)[k] == ambient_air_temperature_after(75, true, k as nat).0
        &&& MIN_SIMULATED_TEMPERATURE <= stream_values(75, true, outcomes)[k] <= MAX_SIMULATED_TEMPERATURE
    } by {
        lemma_temperature_always_in_band(75, true, k as nat);
    }
}

/// The highest ambient air temperature the mixed sample's vehicle reaches.
pub const MAX_HVAC_TEMPERATURE: u32 = 100;
/// The lowest ambient air temperature the air conditioning brings it to.
pub const MIN_HVAC_TEMPERATURE: u32 = 65;

/// The climate of the mixed sample's simulated vehicle: the ambient air
/// temperature, the air conditioning and the message on its display. (The
/// battery's remaining charge, a floating-point value, is kept beside it.)
#[derive(Debug)]
pub struct VehicleClimate {
    pub ambient_air_temperature: u32,
    pub is_air_conditioning_active: bool,
    pub ui_message: String,
}

/// The climate after one epoch: (temperature, air conditioning active, battery drains).
pub open spec fn spec_climate_epoch(
    ambient_air_temperature: u32,
    is_air_conditioning_active: bool,
    battery_is_empty: bool,
    battery_has_charge: bool,
) -> (u32, bool, bool) {
    let active = is_air_conditioning_active && !battery_is_empty;
    let temperature = if active {
        if ambient_air_temperature > MIN_HVAC_TEMPERATURE { (ambient_air_temperature - 1) as u32 } else { ambient_air_temperature }
    } else if ambient_air_temperature < MAX_HVAC_TEMPERATURE {
        (ambient_air_temperature + 1) as u32
    } else {
        ambient_air_temperature
    };
    (temperature, active, active && battery_has_charge)
}

impl VehicleClimate {
    /// The vehicle at the start of the simulation: 75 degrees, air
    /// conditioning off, no message.
    pub fn new() -> (v: Self)
        ensures
            v.ambient_air_temperature == 75,
            !v.is_air_conditioning_active,
            v.ui_message@ == Seq::<char>::empty(),
    {
        VehicleClimate { ambient_air_temperature: 75, is_air_conditioning_active: false, ui_message: String::new() }
    }

    /// Run one epoch of the simulation. The air conditioning will not be active
    /// without power; it cools the air down to 65 degrees, and without it the
    /// air warms up to 100 degrees. Returns whether the air conditioning draws
    /// on the battery in this epoch.
    ///
    /// # Arguments
    /// * `battery_is_empty` - The battery's remaining charge is exactly zero.
    /// * `battery_has_charge` - The battery's remaining charge is above zero.
    pub fn execute_epoch(&mut self, battery_is_empty: bool, battery_has_charge: bool) -> (drains_battery: bool)
        ensures
            (final(self).ambient_air_temperature, final(self).is_air_conditioning_active, drains_battery)
                == spec_climate_epoch(
                    old(self).ambient_air_temperature,
                    old(self).is_air_conditioning_active,
                    battery_is_empty,
                    battery_has_charge,
                ),
            final(self).is_air_conditioning_active == (old(self).is_air_conditioning_active && !battery_is_empty),
            final(self).is_air_conditioning_active && old(self).ambient_air_temperature > 65
                ==> final(self).ambient_air_temperature == old(self).ambient_air_temperature - 1,
            final(self).is_air_conditioning_active && old(self).ambient_air_temperature <= 65
                ==> final(self).ambient_air_temperature == old(self).ambient_air_temperature,
            !final(self).is_air_conditioning_active && old(self).ambient_air_temperature < 100
                ==> final(self).ambient_air_temperature == old(self).ambient_air_temperature + 1,
            !final(self).is_air_conditioning_active && old(self).ambient_air_temperature >= 100
                ==> final(self).ambient_air_temperature == old(self).ambient_air_temperature,
            drains_battery == (final(self).is_air_conditioning_active && battery_has_charge),
            final(self).ui_message == old(self).ui_message,
    {
        // A/C will not be active without power.
        if battery_is_empty {
            self.is_air_conditioning_active = false;
        }
        // Adjust the ambient air temperature based on whether the A/C is being used.
        if self.is_air_conditioning_active {
            if self.ambient_air_temperature > MIN_HVAC_TEMPERATURE {
                self.ambient_air_temperature = self.ambient_air_temperature - 1;
            }
        } else if self.ambient_air_temperature < MAX_HVAC_TEMPERATURE {
            self.ambient_air_temperature = self.ambient_air_temperature + 1;
        }
        // Update the A/C's use of the battery.
        self.is_air_conditioning_active && battery_has_charge
    }
}

/// In an epoch the temperature changes by at most one degree; it never rises
/// while the air conditioning runs and never falls while it is off; a
/// temperature between 65 and 100 stays there; an empty battery turns the air
/// conditioning off.
pub proof fn lemma_climate_epoch_is_gradual(
    ambient_air_temperature: u32,
    is_air_conditioning_active: bool,
    battery_is_empty: bool,
    battery_has_charge: bool,
)
    ensures ({
        let (t, active, drains) = spec_climate_epoch(ambient_air_temperature, is_air_conditioning_active, battery_is_empty, battery_has_charge);
        &&& ambient_air_temperature - 1 <= t <= ambient_air_temperature + 1
        &&& active ==> t <= ambient_air_temperature
        &&& !active ==> t >= ambient_air_temperature
        &&& MIN_HVAC_TEMPERATURE <= ambient_air_temperature <= MAX_HVAC_TEMPERATURE
            ==> MIN_HVAC_TEMPERATURE <= t <= MAX_HVAC_TEMPERATURE
        &&& battery_is_empty ==> !active && !drains
        &&& drains ==> active && battery_has_charge
    }),
{
}

/// An epoch of the climate, exactly: the air conditioning stays on only
/// while the battery is not empty; while it is on it cools the air by one
/// degree down to 65, and while it is off the air warms by one degree up to
/// 100; the battery is drawn on exactly when the air conditioning is on and
/// the battery has charge.
pub proof fn lemma_climate_epoch_exact(
    ambient_air_temperature: u32,
    is_air_conditioning_active: bool,
    battery_is_empty: bool,
    battery_has_charge: bool,
)
    ensures ({
        let (t, active, drains) = spec_climate_epoch(ambient_air_temperature, is_air_conditioning_active, battery_is_empty, battery_has_charge);
        &&& active == (is_air_conditioning_active && !battery_is_empty)
        &&& active && ambient_air_temperature > 65 ==> t == ambient_air_temperature - 1
        &&& active && ambient_air_temperature <= 65 ==> t == ambient_air_temperature
        &&& !active && ambient_air_temperature < 100 ==> t == ambient_air_temperature + 1
        &&& !active && ambient_air_temperature >= 100 ==> t == ambient_air_temperature
        &&& drains == (active && battery_has_charge)
    }),
{
}

/// One step of the simulated temperature, exactly: rising, it goes up by one
/// and keeps rising, except at 85, where it turns and goes down to 84;
/// falling, it goes down by one and keeps falling, except at 65, where it
/// turns and goes up to 66.
pub proof fn lemma_temperature_step_exact(temperature: int, is_increasing: bool)
    ensures
        is_increasing && temperature != 85 ==> spec_next_ambient_air_temperature(temperature, true) == (temperature + 1, true),
        is_increasing && temperature == 85 ==> spec_next_ambient_air_temperature(temperature, true) == (84int, false),
        !is_increasing && temperature != 65 ==> spec_next_ambient_air_temperature(temperature, false) == (temperature - 1, false),
        !is_increasing && temperature == 65 ==> spec_next_ambient_air_temperature(temperature, false) == (66int, true),
{
}

} // verus!
