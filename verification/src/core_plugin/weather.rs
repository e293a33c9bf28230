//! Weather: what falls on the overworld, how zones weigh each kind, and
//! which elements each kind favours.
//!
//! Weights are integer hundredths (50 stands for 0.50); element bonuses are
//! percentages (110 stands for ×1.10); intensity is in millionths and the
//! transition timer in milliseconds.

use crate::data::Element;
use crate::strmap::StrMap;
use vstd::prelude::*;

verus! {

broadcast use vstd::string::group_string_axioms;

#[derive(Clone, Copy, Debug, PartialEq, Eq, Structural, Hash)]
pub enum Weather {
    Clear,
    Rain,
    Snow,
    Fog,
    Sandstorm,
}

impl Default for Weather {
    fn default() -> (w: Self)
        ensures
            w == Weather::Clear,
    {
        Weather::Clear
    }
}

/// The weather kinds in selection order.
pub open spec fn weather_order() -> Seq<Weather> {
    seq![Weather::Clear, Weather::Rain, Weather::Snow, Weather::Fog, Weather::Sandstorm]
}

impl Weather {
    /// Every weather kind, in selection order.
    pub fn all() -> (r: [Weather; 5])
        ensures
            r@ == weather_order(),
    {
        let r = [Weather::Clear, Weather::Rain, Weather::Snow, Weather::Fog, Weather::Sandstorm];
        assert(r@ =~= weather_order());
        r
    }
}

/// A zone's weather weights in hundredths; they need not add up to 100.
#[derive(Clone, Copy, Debug, PartialEq, Eq, Structural)]
pub struct ZoneWeatherWeights {
    pub clear: u32,
    pub rain: u32,
    pub snow: u32,
    pub fog: u32,
    pub sandstorm: u32,
}

pub open spec fn default_weights() -> ZoneWeatherWeights {
    ZoneWeatherWeights { clear: 50, rain: 20, snow: 5, fog: 15, sandstorm: 10 }
}

impl Default for ZoneWeatherWeights {
    fn default() -> (w: Self)
        ensures
            w == default_weights(),
    {
        ZoneWeatherWeights { clear: 50, rain: 20, snow: 5, fog: 15, sandstorm: 10 }
    }
}

/// The weights in selection order.
pub open spec fn weight_seq(w: ZoneWeatherWeights) -> Seq<nat> {
    seq![w.clear as nat, w.rain as nat, w.snow as nat, w.fog as nat, w.sandstorm as nat]
}

/// Sum of the first `n` weights.
pub open spec fn cumulative(ws: Seq<nat>, n: int) -> nat
    decreases n,
{
    if n <= 0 || ws.len() == 0 {
        0
    } else if n > ws.len() {
        cumulative(ws, ws.len() as int)
    } else {
        cumulative(ws, n - 1) + ws[n - 1]
    }
}

/// Position chosen by a roll of `roll / range`: the first `i` whose
/// normalised cumulative weight exceeds the roll, searching from `i`;
/// the last position when none does.
pub open spec fn first_above(ws: Seq<nat>, roll: nat, range: nat, i: int) -> int
    decreases 5 - i,
{
    if i >= 4 {
        4
    } else if roll * cumulative(ws, 5) < cumulative(ws, i + 1) * range {
        i
    } else {
        first_above(ws, roll, range, i + 1)
    }
}

/// The weather that weights `w` select for a roll of `roll / range`.
pub open spec fn select_spec(w: ZoneWeatherWeights, roll: nat, range: nat) -> Weather {
    if cumulative(weight_seq(w), 5) == 0 {
        Weather::Clear
    } else {
        weather_order()[first_above(weight_seq(w), roll, range, 0)]
    }
}

/// The position in selection order that weights `w` pick for a roll of
/// `roll / range` (when the weights are not all zero).
pub open spec fn select_index(w: ZoneWeatherWeights, roll: nat, range: nat) -> int {
    first_above(weight_seq(w), roll, range, 0)
}

proof fn lemma_first_above_from(ws: Seq<nat>, roll: nat, range: nat, i: int)
    requires
        0 <= i,
    ensures
        i <= 4 ==> i <= first_above(ws, roll, range, i),
        first_above(ws, roll, range, i) <= 4,
    decreases 5 - i,
{
    if i < 4 && !(roll * cumulative(ws, 5) < cumulative(ws, i + 1) * range) {
        lemma_first_above_from(ws, roll, range, i + 1);
    }
}

proof fn lemma_first_above_monotone(ws: Seq<nat>, a: nat, b: nat, range: nat, i: int)
    requires
        0 <= i,
        a <= b,
    ensures
        first_above(ws, a, range, i) <= first_above(ws, b, range, i),
    decreases 5 - i,
{
    if i < 4 {
        let t = cumulative(ws, 5);
        assert(a * t <= b * t) by (nonlinear_arith)
            requires
                a <= b,
        ;
        if b * t < cumulative(ws, i + 1) * range {
        } else if a * t < cumulative(ws, i + 1) * range {
            lemma_first_above_from(ws, b, range, i + 1);
        } else {
            lemma_first_above_monotone(ws, a, b, range, i + 1);
        }
    }
}

proof fn lemma_first_above_positive(ws: Seq<nat>, roll: nat, range: nat, i: int)
    requires
        0 <= i <= 4,
        ws.len() == 5,
        roll * cumulative(ws, 5) >= cumulative(ws, i) * range,
    ensures
        first_above(ws, roll, range, i) < 4 ==> ws[first_above(ws, roll, range, i)] > 0,
    decreases 5 - i,
{
    if i < 4 {
        let t = cumulative(ws, 5);
        if roll * t < cumulative(ws, i + 1) * range {
            assert(cumulative(ws, i + 1) == cumulative(ws, i) + ws[i]);
            if ws[i] == 0 {
                assert(false);
            }
        } else {
            lemma_first_above_positive(ws, roll, range, i + 1);
        }
    }
}

/// Weather selection is monotone in the roll: over the order Clear, Rain,
/// Snow, Fog, Sandstorm, a larger roll never picks an earlier weather. A
/// weather of zero weight is picked only as the last one, Sandstorm.
pub proof fn lemma_select_monotone(w: ZoneWeatherWeights, a: nat, b: nat, range: nat)
    requires
        a <= b,
    ensures
        cumulative(weight_seq(w), 5) > 0 ==> select_spec(w, a, range) == weather_order()[select_index(w, a, range)]
            && select_spec(w, b, range) == weather_order()[select_index(w, b, range)],
        0 <= select_index(w, a, range) <= select_index(w, b, range) <= 4,
        select_index(w, a, range) < 4 ==> weight_seq(w)[select_index(w, a, range)] > 0,
{
    let ws = weight_seq(w);
    lemma_first_above_from(ws, a, range, 0);
    lemma_first_above_from(ws, b, range, 0);
    lemma_first_above_monotone(ws, a, b, range, 0);
    assert(cumulative(ws, 0) == 0);
    lemma_first_above_positive(ws, a, range, 0);
}

impl ZoneWeatherWeights {
    /// `(weather, weight)` pairs in selection order.
    pub fn weighted_list(&self) -> (r: Vec<(Weather, u32)>)
        ensures
            r@.len() == 5,
            forall|i: int| 0 <= i < 5 ==> (#[trigger] r@[i]).0 == weather_order()[i] && r@[i].1 == weight_seq(*self)[i],
    {
        let r = vec![
            (Weather::Clear, self.clear),
            (Weather::Rain, self.rain),
            (Weather::Snow, self.snow),
            (Weather::Fog, self.fog),
            (Weather::Sandstorm, self.sandstorm),
        ];
        r
    }

    /// Picks a weather for a random value `roll / range` in [0, 1). The
    /// weights are normalised by their sum; if all are zero the weather is
    /// Clear.
    pub fn select(&self, roll: u64, range: u64) -> (w: Weather)
        requires
            roll < range,
        ensures
            w == select_spec(*self, roll as nat, range as nat),
    {
        let pairs = self.weighted_list();
        let ghost ws = weight_seq(*self);
        let total: u128 = self.clear as u128 + self.rain as u128 + self.snow as u128 + self.fog as u128
            + self.sandstorm as u128;
        proof {
            reveal_with_fuel(cumulative, 6);
            assert(total == cumulative(ws, 5));
        }
        if total == 0 {
            return Weather::Clear;
        }
        let mut cum: u128 = 0;
        let mut i: usize = 0;
        while i < 5
            invariant
                0 <= i <= 5,
                ws == weight_seq(*self),
                pairs@.len() == 5,
                forall|j: int| 0 <= j < 5 ==> (#[trigger] pairs@[j]).0 == weather_order()[j] && pairs@[j].1 == ws[j],
                total == cumulative(ws, 5),
                total > 0,
                roll < range,
                cum == cumulative(ws, i as int),
                cum <= total,
                total <= 5 * 0xffff_ffffu128,
                first_above(ws, roll as nat, range as nat, 0) == first_above(ws, roll as nat, range as nat, i as int),
            decreases 5 - i,
        {
            let (weather, weight) = pairs[i];
            proof {
                reveal_with_fuel(cumulative, 6);
            }
            cum = cum + weight as u128;
            assert(cum == cumulative(ws, i + 1));
            assert((roll as u128) * total <= 0xffff_ffff_ffff_ffffu128 * (5 * 0xffff_ffffu128)) by (nonlinear_arith)
                requires
                    roll < range,
                    total <= 5 * 0xffff_ffffu128,
            ;
            assert(cum * (range as u128) <= (5 * 0xffff_ffffu128) * 0xffff_ffff_ffff_ffffu128) by (nonlinear_arith)
                requires
                    cum <= 5 * 0xffff_ffffu128,
            ;
            if (roll as u128) * total < cum * (range as u128) {
                return weather;
            }
            i = i + 1;
        }
        proof {
            reveal_with_fuel(cumulative, 6);
            assert((roll as nat) * total < total * (range as nat)) by (nonlinear_arith)
                requires
                    roll < range,
                    total > 0,
            ;
        }
        Weather::Sandstorm
    }
}

/// Maps overworld zone names to their weather weights.
#[derive(Clone, Debug)]
pub struct WeatherConfig {
    pub zones: StrMap<ZoneWeatherWeights>,
}

/// The weights a zone uses: its own if configured, the default otherwise.
pub open spec fn zone_weights(zones: Map<Seq<char>, ZoneWeatherWeights>, zone: Seq<char>) -> ZoneWeatherWeights {
    if zones.contains_key(zone) {
        zones[zone]
    } else {
        default_weights()
    }
}

impl Default for WeatherConfig {
    /// Four zones: the village (mostly clear), the mountain (snow and fog),
    /// the desert (sandstorms) and the tower (fog).
    fn default() -> (c: Self)
        ensures
            c.zones.wf(),
            c.zones@.len() == 4,
            c.zones@.contains_key("vale_village"@),
            c.zones@["vale_village"@] == (ZoneWeatherWeights { clear: 50, rain: 25, snow: 5, fog: 15, sandstorm: 5 }),
            c.zones@.contains_key("mountain"@),
            c.zones@["mountain"@] == (ZoneWeatherWeights { clear: 20, rain: 10, snow: 40, fog: 25, sandstorm: 5 }),
            c.zones@.contains_key("desert"@),
            c.zones@["desert"@] == (ZoneWeatherWeights { clear: 30, rain: 2, snow: 0, fog: 8, sandstorm: 60 }),
            c.zones@.contains_key("tower"@),
            c.zones@["tower"@] == (ZoneWeatherWeights { clear: 15, rain: 0, snow: 0, fog: 80, sandstorm: 5 }),
    {
        proof {
            reveal_strlit("vale_village");
            reveal_strlit("mountain");
            reveal_strlit("desert");
            reveal_strlit("tower");
            assert("vale_village"@.len() == 12);
            assert("mountain"@.len() == 8);
            assert("desert"@.len() == 6);
            assert("tower"@.len() == 5);
            assert("desert"@[0] != "tower"@[0]);
        }
        let mut zones: StrMap<ZoneWeatherWeights> = StrMap::new();
        zones.insert("vale_village", ZoneWeatherWeights { clear: 50, rain: 25, snow: 5, fog: 15, sandstorm: 5 });
        zones.insert("mountain", ZoneWeatherWeights { clear: 20, rain: 10, snow: 40, fog: 25, sandstorm: 5 });
        zones.insert("desert", ZoneWeatherWeights { clear: 30, rain: 2, snow: 0, fog: 8, sandstorm: 60 });
        zones.insert("tower", ZoneWeatherWeights { clear: 15, rain: 0, snow: 0, fog: 80, sandstorm: 5 });
        proof {
            zones.lemma_len();
            assert(zones@.dom() =~= set!["vale_village"@, "mountain"@, "desert"@, "tower"@]);
        }
        WeatherConfig { zones }
    }
}

impl WeatherConfig {
    /// The weights for a zone, falling back to the default weights when the
    /// zone is not configured.
    pub fn weights_for_zone(&self, zone: &str) -> (w: ZoneWeatherWeights)
        requires
            self.zones.wf(),
        ensures
            w == zone_weights(self.zones@, zone@),
    {
        match self.zones.get(zone) {
            Some(w) => *w,
            None => ZoneWeatherWeights::default(),
        }
    }
}

/// Element damage multiplier under a weather, in percent.
pub open spec fn weather_bonus_spec(weather: Weather, element: Element) -> int {
    match (weather, element) {
        (Weather::Rain, Element::Mercury) => 110,
        (Weather::Rain, Element::Mars) => 90,
        (Weather::Sandstorm, Element::Venus) => 110,
        (Weather::Sandstorm, Element::Jupiter) => 90,
        (Weather::Snow, Element::Mercury) => 105,
        (Weather::Snow, Element::Jupiter) => 105,
        (Weather::Fog, Element::Jupiter) => 110,
        _ => 100,
    }
}

/// The elemental damage multiplier the weather grants, in percent: rain
/// favours Mercury (+10) over Mars (-10), sandstorms Venus (+10) over
/// Jupiter (-10), snow Mercury and Jupiter (+5 each), fog Jupiter (+10);
/// clear weather changes nothing.
pub fn get_weather_element_bonus(weather: &Weather, element: &Element) -> (r: u32)
    ensures
        r == weather_bonus_spec(*weather, *element),
{
    match (weather, element) {
        (Weather::Rain, Element::Mercury) => 110,
        (Weather::Rain, Element::Mars) => 90,
        (Weather::Sandstorm, Element::Venus) => 110,
        (Weather::Sandstorm, Element::Jupiter) => 90,
        (Weather::Snow, Element::Mercury) => 105,
        (Weather::Snow, Element::Jupiter) => 105,
        (Weather::Fog, Element::Jupiter) => 110,
        _ => 100,
    }
}

/// Current weather, its intensity, a countdown to the next change, and the
/// zone the player is in.
#[derive(Clone, Debug)]
pub struct WeatherState {
    pub current: Weather,
    /// Intensity in millionths (0 calm, 1_000_000 maximum).
    pub intensity: u32,
    /// Milliseconds until the next weather change is considered.
    pub transition_timer: i64,
    pub current_zone: String,
}

impl Default for WeatherState {
    fn default() -> (s: Self)
        ensures
            s.current == Weather::Clear,
            s.intensity == 0,
            s.transition_timer == 45_000,
            s.current_zone@ == "vale_village"@,
    {
        WeatherState {
            current: Weather::Clear,
            intensity: 0,
            transition_timer: 45_000,
            current_zone: "vale_village".to_owned(),
        }
    }
}

/// Intensity of a new weather for a pseudo-random value of `p / 1000`.
pub open spec fn intensity_spec(w: Weather, p: int) -> int {
    match w {
        Weather::Clear => 0,
        Weather::Rain => 400_000 + 600 * p,
        Weather::Snow => 300_000 + 500 * p,
        Weather::Fog => 500_000 + 500 * p,
        Weather::Sandstorm => 500_000 + 500 * p,
    }
}

/// Advances the weather by `delta_ms` milliseconds. When the countdown runs
/// out, a new weather is drawn from the zone's weights with the
/// pseudo-random value `(elapsed_us mod 1000) / 1000` (the sub-millisecond
/// part of the elapsed time), its intensity is set from the same value, and
/// the countdown restarts at 30 to 60 seconds.
pub fn weather_transition_system(state: &mut WeatherState, config: &WeatherConfig, delta_ms: u32, elapsed_us: u64)
    requires
        config.zones.wf(),
        old(state).transition_timer >= i64::MIN + u32::MAX,
    ensures
        final(state).current_zone == old(state).current_zone,
        old(state).transition_timer - delta_ms > 0 ==> {
            &&& final(state).transition_timer == old(state).transition_timer - delta_ms
            &&& final(state).current == old(state).current
            &&& final(state).intensity == old(state).intensity
        },
        old(state).transition_timer - delta_ms <= 0 ==> {
            let p = (elapsed_us % 1000) as int;
            let w = select_spec(zone_weights(config.zones@, old(state).current_zone@), p as nat, 1000);
            &&& final(state).current == w
            &&& final(state).intensity == intensity_spec(w, p)
            &&& final(state).transition_timer == 30_000 + 30 * p
        },
{
    state.transition_timer = state.transition_timer - delta_ms as i64;
    if state.transition_timer <= 0 {
        let weights = config.weights_for_zone(state.current_zone.as_str());
        let p: u64 = elapsed_us % 1000;
        let new_weather = weights.select(p, 1000);
        state.current = new_weather;
        let p32 = p as u32;
        state.intensity = match new_weather {
            Weather::Clear => 0,
            Weather::Rain => 400_000 + 600 * p32,
            Weather::Snow => 300_000 + 500 * p32,
            Weather::Fog => 500_000 + 500 * p32,
            Weather::Sandstorm => 500_000 + 500 * p32,
        };
        state.transition_timer = 30_000 + 30 * (p as i64);
    }
}

} // verus!
