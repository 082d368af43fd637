//! What every weather provider can be asked.

use vstd::prelude::*;
use crate::date::Date;
use crate::request::Plan;

verus! {

/// The interface of a weather provider. A lookup names an address and,
/// where the weather of another day than today is wanted, a date. The
/// provider answers with the call to make and the request that makes it.
pub trait WeatherProvider {
    /// The calls of the provider's service.
    type Call;

    /// What the provider can refuse a lookup with.
    type Error;

    /// The call that gives the weather now.
    spec fn current() -> Self::Call;

    /// The call and the request that serve a lookup made now. A lookup
    /// without a date is always served, by the call that gives the weather
    /// now.
    fn get_weather(&self, address: &str, date: Option<Date>) -> (r: Result<
        Plan<Self::Call>,
        Self::Error,
    >)
        ensures
            date is None ==> r is Ok && r->Ok_0.call == Self::current(),
    ;
}

} // verus!
