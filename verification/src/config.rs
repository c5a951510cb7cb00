//! What a sampler is set up with: the country, the pause between two
//! fetches, and the two timeouts of a fetch.

use vstd::prelude::*;

verus! {

/// The settings of a sampler. The connection timeout of every value of this
/// type is strictly shorter than its request timeout.
pub struct SamplerConfig {
    country: String,
    interval_secs: u64,
    connect_timeout_secs: u64,
    request_timeout_secs: u64,
}

/// The mathematical content of a [`SamplerConfig`].
pub struct SamplerConfigView {
    /// Code with which the areas of the country begin.
    pub country: Seq<char>,
    /// Seconds to wait before each fetch.
    pub interval_secs: u64,
    /// Seconds allowed for establishing the connection.
    pub connect_timeout_secs: u64,
    /// Seconds allowed for the whole request.
    pub request_timeout_secs: u64,
}

impl SamplerConfigView {
    /// The connection timeout is strictly shorter than the request timeout.
    pub open spec fn valid(self) -> bool {
        self.connect_timeout_secs < self.request_timeout_secs
    }
}

/// The standard settings: country `SE`, a fetch every 60 seconds, 15 seconds
/// to connect, 30 seconds for the request.
pub open spec fn standard_settings() -> SamplerConfigView {
    SamplerConfigView {
        country: seq!['S', 'E'],
        interval_secs: 60,
        connect_timeout_secs: 15,
        request_timeout_secs: 30,
    }
}

impl View for SamplerConfig {
    type V = SamplerConfigView;

    closed spec fn view(&self) -> SamplerConfigView {
        SamplerConfigView {
            country: self.country@,
            interval_secs: self.interval_secs,
            connect_timeout_secs: self.connect_timeout_secs,
            request_timeout_secs: self.request_timeout_secs,
        }
    }
}

impl SamplerConfig {
    #[verifier::type_invariant]
    spec fn timeouts_ordered(self) -> bool {
        self.connect_timeout_secs < self.request_timeout_secs
    }

    /// Settings with the given values, or `None` where the connection
    /// timeout is not strictly shorter than the request timeout.
    pub fn new(
        country: &str,
        interval_secs: u64,
        connect_timeout_secs: u64,
        request_timeout_secs: u64,
    ) -> (config: Option<SamplerConfig>)
        ensures
            config is Some <==> connect_timeout_secs < request_timeout_secs,
            config matches Some(c) ==> c@ == (SamplerConfigView {
                country: country@,
                interval_secs,
                connect_timeout_secs,
                request_timeout_secs,
            }),
    {
        if connect_timeout_secs < request_timeout_secs {
            Some(
                SamplerConfig {
                    country: country.to_owned(),
                    interval_secs,
                    connect_timeout_secs,
                    request_timeout_secs,
                },
            )
        } else {
            None
        }
    }

    /// The standard settings.
    pub fn standard() -> (config: SamplerConfig)
        ensures
            config@ == standard_settings(),
    {
        proof {
            reveal_strlit("SE");
            assert("SE"@ =~= seq!['S', 'E']);
        }
        SamplerConfig {
            country: "SE".to_owned(),
            interval_secs: 60,
            connect_timeout_secs: 15,
            request_timeout_secs: 30,
        }
    }

    /// Code with which the areas of the country begin.
    pub fn country(&self) -> (code: &str)
        ensures
            code@ == self@.country,
    {
        self.country.as_str()
    }

    /// Seconds to wait before each fetch.
    pub fn interval_secs(&self) -> (secs: u64)
        ensures
            secs == self@.interval_secs,
    {
        self.interval_secs
    }

    /// Seconds allowed for establishing the connection: always fewer than
    /// [`SamplerConfig::request_timeout_secs`].
    pub fn connect_timeout_secs(&self) -> (secs: u64)
        ensures
            secs == self@.connect_timeout_secs,
            secs < self@.request_timeout_secs,
    {
        proof {
            use_type_invariant(self);
        }
        self.connect_timeout_secs
    }

    /// Seconds allowed for the whole request: always more than
    /// [`SamplerConfig::connect_timeout_secs`].
    pub fn request_timeout_secs(&self) -> (secs: u64)
        ensures
            secs == self@.request_timeout_secs,
            self@.connect_timeout_secs < secs,
    {
        proof {
            use_type_invariant(self);
        }
        self.request_timeout_secs
    }
}

} // verus!
