//! The weather model: a validated temperature and the result envelope.

use vstd::prelude::*;
use vstd::string::*;
use crate::decimal::{
    decimal, digit_char, is_digit, lemma_decimal_digits, lemma_round_half_even_nearest,
    one_decimal, push_one_decimal, round_half_even_signed, rounded_half_even,
};

verus! {

/// Information about the weather at a certain point in time.
#[derive(Debug)]
pub struct Weather {
    pub kind: WeatherKind,
    pub temp: Temperature,
    pub condition: String,
}

/// A [`Weather`] with its condition as a sequence of characters.
pub struct WeatherView {
    pub kind: WeatherKind,
    pub temp: Temperature,
    pub condition: Seq<char>,
}

impl View for Weather {
    type V = WeatherView;

    open spec fn view(&self) -> WeatherView {
        WeatherView { kind: self.kind, temp: self.temp, condition: self.condition@ }
    }
}

/// The kinds of weather information.
#[derive(Debug, Clone, Copy, PartialEq, Eq, Structural)]
pub enum WeatherKind {
    History,
    Current,
    Forecast,
}

/// A temperature on one of three scales, in thousandths of a degree.
#[derive(Debug, Clone, Copy, PartialEq, Eq, Structural)]
pub enum Temperature {
    Kelvin(i64),
    Celsius(i64),
    Fahrenheit(i64),
}

/// Unit systems in which a temperature can be shown.
#[derive(Debug, Clone, Copy, PartialEq, Eq, Structural)]
pub enum Units {
    /// Degrees Fahrenheit.
    Imperial,
    /// Degrees Celsius.
    Metric,
    /// Kelvin.
    SI,
}

/// A value below absolute zero, with the scale it was given on, in
/// thousandths of a degree.
#[derive(Debug, Clone, Copy, PartialEq, Eq, Structural)]
pub enum TemperatureError {
    Kelvin(i64),
    Celsius(i64),
    Fahrenheit(i64),
}

/// Absolute zero in thousandths of a degree Celsius: -273.15 °C.
pub const MIN_CELSIUS: i64 = -273_150;

/// Absolute zero in thousandths of a degree Fahrenheit: -459.67 °F.
pub const MIN_FAHRENHEIT: i64 = -459_670;

/// Absolute zero in thousandths of a kelvin.
pub const MIN_KELVIN: i64 = 0;

/// Denominator of the two scale offsets below.
pub const OFFSET_SCALE: i128 = 32_768;

/// Kelvin at 0 °C, times [`OFFSET_SCALE`]. Conversions take the offset
/// between the Kelvin and Celsius scales as the single-precision number
/// nearest 273.15, which is 8950579 / 32768, a little under 273.15. That is
/// why 0 K reads as -273.1°C.
pub const ZERO_CELSIUS: i128 = 8_950_579;

/// Degrees Fahrenheit between absolute zero and 0 °F, times [`OFFSET_SCALE`]:
/// the single-precision number nearest 459.67, which is 15062467 / 32768.
pub const ZERO_FAHRENHEIT: i128 = 15_062_467;

impl Units {
    /// The degree sign and the letter of the scale.
    pub open spec fn suffix(self) -> Seq<char> {
        match self {
            Units::Imperial => seq!['°', 'F'],
            Units::Metric => seq!['°', 'C'],
            Units::SI => seq!['°', 'K'],
        }
    }
}

impl Temperature {
    /// The stored value is at or above absolute zero on its scale.
    pub open spec fn is_valid(self) -> bool {
        match self {
            Temperature::Kelvin(v) => v >= MIN_KELVIN,
            Temperature::Celsius(v) => v >= MIN_CELSIUS,
            Temperature::Fahrenheit(v) => v >= MIN_FAHRENHEIT,
        }
    }

    /// The temperature on the scale of `units`, in tenths of a degree, as the
    /// fraction `.0 / .1`. With `v` the stored thousandths, `c` for
    /// 8950579 / 32768 and `f` for 15062467 / 32768, the degrees are:
    /// K to °C `v/1000 - c`; K to °F `(v/1000 - c) * 9/5 + 32`;
    /// °C to °F `v/1000 * 9/5 + 32`; °C to K `v/1000 + c`;
    /// °F to °C `(v/1000 - 32) * 5/9`; °F to K `(v/1000 + f) * 5/9`.
    pub open spec fn tenths_exact(self, units: Units) -> (int, nat) {
        match (self, units) {
            (Temperature::Kelvin(v), Units::SI) => (v as int, 100),
            (Temperature::Kelvin(v), Units::Metric) => (
                v * OFFSET_SCALE - 1000 * ZERO_CELSIUS,
                (100 * OFFSET_SCALE) as nat,
            ),
            (Temperature::Kelvin(v), Units::Imperial) => (
                (v * OFFSET_SCALE - 1000 * ZERO_CELSIUS) * 9 + 160_000 * OFFSET_SCALE,
                (500 * OFFSET_SCALE) as nat,
            ),
            (Temperature::Celsius(v), Units::Metric) => (v as int, 100),
            (Temperature::Celsius(v), Units::Imperial) => (9 * v + 160_000, 500),
            (Temperature::Celsius(v), Units::SI) => (
                v * OFFSET_SCALE + 1000 * ZERO_CELSIUS,
                (100 * OFFSET_SCALE) as nat,
            ),
            (Temperature::Fahrenheit(v), Units::Imperial) => (v as int, 100),
            (Temperature::Fahrenheit(v), Units::Metric) => (v - 32_000, 180),
            (Temperature::Fahrenheit(v), Units::SI) => (
                v * OFFSET_SCALE + 1000 * ZERO_FAHRENHEIT,
                (180 * OFFSET_SCALE) as nat,
            ),
        }
    }

    /// The temperature on the scale of `units`, rounded to tenths of a
    /// degree; a value halfway between two tenths goes to the even one.
    pub open spec fn tenths(self, units: Units) -> int {
        let (num, den) = self.tenths_exact(units);
        round_half_even_signed(num, den)
    }

    /// The text that shows the temperature in `units`: the rounded value with
    /// one digit after the point, the degree sign and the letter of the scale.
    pub open spec fn display(self, units: Units) -> Seq<char> {
        one_decimal(self.tenths(units)) + units.suffix()
    }

    /// A temperature from thousandths of a degree Celsius. Fails below
    /// -273.15 °C.
    pub fn from_c(celsius: i64) -> (r: Result<Temperature, TemperatureError>)
        ensures
            celsius >= MIN_CELSIUS ==> r == Ok::<Temperature, TemperatureError>(
                Temperature::Celsius(celsius),
            ),
            celsius < MIN_CELSIUS ==> r == Err::<Temperature, TemperatureError>(
                TemperatureError::Celsius(celsius),
            ),
            r is Ok ==> r->Ok_0.is_valid(),
    {
        if celsius < MIN_CELSIUS {
            return Err(TemperatureError::Celsius(celsius));
        }
        Ok(Temperature::Celsius(celsius))
    }

    /// A temperature from thousandths of a degree Fahrenheit. Fails below
    /// -459.67 °F.
    pub fn from_f(fahrenheit: i64) -> (r: Result<Temperature, TemperatureError>)
        ensures
            fahrenheit >= MIN_FAHRENHEIT ==> r == Ok::<Temperature, TemperatureError>(
                Temperature::Fahrenheit(fahrenheit),
            ),
            fahrenheit < MIN_FAHRENHEIT ==> r == Err::<Temperature, TemperatureError>(
                TemperatureError::Fahrenheit(fahrenheit),
            ),
            r is Ok ==> r->Ok_0.is_valid(),
    {
        if fahrenheit < MIN_FAHRENHEIT {
            return Err(TemperatureError::Fahrenheit(fahrenheit));
        }
        Ok(Temperature::Fahrenheit(fahrenheit))
    }

    /// A temperature from thousandths of a kelvin. Fails below 0 K.
    pub fn from_k(kelvin: i64) -> (r: Result<Temperature, TemperatureError>)
        ensures
            kelvin >= MIN_KELVIN ==> r == Ok::<Temperature, TemperatureError>(
                Temperature::Kelvin(kelvin),
            ),
            kelvin < MIN_KELVIN ==> r == Err::<Temperature, TemperatureError>(
                TemperatureError::Kelvin(kelvin),
            ),
            r is Ok ==> r->Ok_0.is_valid(),
    {
        if kelvin < MIN_KELVIN {
            return Err(TemperatureError::Kelvin(kelvin));
        }
        Ok(Temperature::Kelvin(kelvin))
    }

    /// The temperature in `units` as text, such as `8.0°C`.
    pub fn to_string_value(self, units: Units) -> (s: String)
        ensures
            s@ == self.display(units),
    {
        let num: i128;
        let den: u128;
        match self {
            Temperature::Kelvin(k) => match units {
                Units::Imperial => {
                    num = (k as i128 * OFFSET_SCALE - 1000 * ZERO_CELSIUS) * 9 + 160_000
                        * OFFSET_SCALE;
                    den = 500 * (OFFSET_SCALE as u128);
                },
                Units::Metric => {
                    num = k as i128 * OFFSET_SCALE - 1000 * ZERO_CELSIUS;
                    den = 100 * (OFFSET_SCALE as u128);
                },
                Units::SI => {
                    num = k as i128;
                    den = 100;
                },
            },
            Temperature::Celsius(c) => match units {
                Units::Imperial => {
                    num = 9 * (c as i128) + 160_000;
                    den = 500;
                },
                Units::Metric => {
                    num = c as i128;
                    den = 100;
                },
                Units::SI => {
                    num = c as i128 * OFFSET_SCALE + 1000 * ZERO_CELSIUS;
                    den = 100 * (OFFSET_SCALE as u128);
                },
            },
            Temperature::Fahrenheit(f) => match units {
                Units::Imperial => {
                    num = f as i128;
                    den = 100;
                },
                Units::Metric => {
                    num = f as i128 - 32_000;
                    den = 180;
                },
                Units::SI => {
                    num = f as i128 * OFFSET_SCALE + 1000 * ZERO_FAHRENHEIT;
                    den = 180 * (OFFSET_SCALE as u128);
                },
            },
        }
        let tenths: i128 = rounded_half_even(num, den);
        let mut s = String::new();
        push_one_decimal(&mut s, tenths);
        match units {
            Units::Imperial => {
                proof {
                    reveal_strlit("°F");
                }
                s.append("°F");
            },
            Units::Metric => {
                proof {
                    reveal_strlit("°C");
                }
                s.append("°C");
            },
            Units::SI => {
                proof {
                    reveal_strlit("°K");
                }
                s.append("°K");
            },
        }
        assert(s@ =~= self.display(units));
        s
    }
}

/// The text of a temperature has one digit after the point: it ends with a
/// point, a digit, the degree sign and the letter of the scale, and at least
/// one digit stands before the point.
pub proof fn lemma_display_one_decimal(temp: Temperature, units: Units)
    ensures
        ({
            let text = temp.display(units);
            let n = text.len() as int;
            &&& n >= 5
            &&& is_digit(text[n - 5])
            &&& text[n - 4] == '.'
            &&& is_digit(text[n - 3])
            &&& text.subrange(n - 2, n) == units.suffix()
        }),
{
    let tenths = temp.tenths(units);
    let m = if tenths < 0 {
        -tenths
    } else {
        tenths
    };
    let whole = decimal((m / 10) as nat);
    lemma_decimal_digits((m / 10) as nat);
    assert(is_digit(digit_char(m % 10)));
    let text = temp.display(units);
    let n = text.len() as int;
    assert(is_digit(whole[whole.len() - 1]));
    assert(text.subrange(n - 2, n) =~= units.suffix());
}

/// The value that is shown is a tenth nearest the exact reading: the two
/// differ by at most half a tenth of a degree.
pub proof fn lemma_tenths_nearest(temp: Temperature, units: Units)
    ensures
        ({
            let (num, den) = temp.tenths_exact(units);
            &&& den > 0
            &&& -(den as int) <= 2 * (temp.tenths(units) * den - num) <= den
        }),
{
    let (num, den) = temp.tenths_exact(units);
    lemma_round_half_even_nearest(num, den);
}

impl Weather {
    /// A past observation with the given temperature and condition.
    pub fn history(temp: Temperature, condition: String) -> (w: Weather)
        ensures
            w@ == (WeatherView { kind: WeatherKind::History, temp, condition: condition@ }),
    {
        Weather { kind: WeatherKind::History, temp, condition }
    }

    /// The weather now, with the given temperature and condition.
    pub fn current(temp: Temperature, condition: String) -> (w: Weather)
        ensures
            w@ == (WeatherView { kind: WeatherKind::Current, temp, condition: condition@ }),
    {
        Weather { kind: WeatherKind::Current, temp, condition }
    }

    /// A forecast with the given temperature and condition.
    pub fn forecast(temp: Temperature, condition: String) -> (w: Weather)
        ensures
            w@ == (WeatherView { kind: WeatherKind::Forecast, temp, condition: condition@ }),
    {
        Weather { kind: WeatherKind::Forecast, temp, condition }
    }
}

} // verus!
