//! The recognized command-line options, their defaults, the resolution of
//! flag, environment and default values into raw options, and the runtime
//! configuration record derived from the raw options.

use vstd::prelude::*;

use crate::network::Network;
use crate::network::network_of_name;

verus! {

/// Default IPC connection string for the bp daemon API.
pub const BPD_API_ADDR: &'static str = "tcp://127.0.0.1:13300";

/// Default IPC connection string for bp daemon push notifications.
pub const BPD_PUSH_ADDR: &'static str = "tcp://127.0.0.1:13301";

/// Default data directory for keyrings, assets and other wallet state.
pub const DATA_DIR: &'static str = "~/.kaleidoscope";

/// Default network name, looked up like any other network name.
pub const NETWORK_NAME: &'static str = "Testnet";

/// Most occurrences of the verbosity flag that are accepted.
pub const VERBOSITY_MAX: u8 = 4;

/// The explicit sources a single option can be given from: the flag's
/// value, if the flag was on the command line, and the environment
/// variable's value, if the variable was set.
#[derive(Clone, Debug)]
pub struct OptSource {
    pub flag: Option<String>,
    pub env: Option<String>,
}

/// The resolved text of an option: an explicit flag beats the environment
/// variable, and the environment variable beats the default.
pub open spec fn resolved(src: OptSource, dflt: Seq<char>) -> Seq<char> {
    match src.flag {
        Some(f) => f@,
        None => match src.env {
            Some(e) => e@,
            None => dflt,
        },
    }
}

impl OptSource {
    /// An option that was given neither as a flag nor in the environment.
    pub fn absent() -> (r: OptSource)
        ensures
            r.flag is None,
            r.env is None,
    {
        OptSource { flag: None, env: None }
    }

    /// Picks this option's value: the flag if given, else the environment
    /// variable if set, else the default.
    pub fn resolve(self, dflt: &str) -> (r: String)
        ensures
            r@ == resolved(self, dflt@),
    {
        match self.flag {
            Some(f) => f,
            None => match self.env {
                Some(e) => e,
                None => dflt.to_owned(),
            },
        }
    }
}

/// Law: an option given neither as a flag nor as an environment variable
/// resolves to its default.
pub proof fn lemma_resolve_absent(src: OptSource, dflt: Seq<char>)
    requires
        src.flag is None,
        src.env is None,
    ensures
        resolved(src, dflt) == dflt,
{
}

/// Law: an explicit flag value wins over both the environment variable and
/// the default.
pub proof fn lemma_resolve_flag_wins(src: OptSource, dflt: Seq<char>)
    requires
        src.flag is Some,
    ensures
        resolved(src, dflt) == src.flag->0@,
{
}

/// Everything read for this layer from the process's command line and
/// environment, before any validation.
#[derive(Clone, Debug)]
pub struct OptInput {
    /// How many times the verbosity flag occurred.
    pub verbose: u8,
    pub data_dir: OptSource,
    pub bpd_api: OptSource,
    pub bpd_subscr: OptSource,
    pub network: OptSource,
    /// The subcommand, if one was named.
    pub command: Option<String>,
}

/// A command-line or environment parse failure. Every failure of this
/// layer is one of these; none is recoverable here.
#[derive(Clone, Copy, Debug, PartialEq, Eq, Structural)]
pub enum ParseError {
    /// The verbosity flag occurred more than `VERBOSITY_MAX` times.
    ExcessVerbosity,
    /// The resolved network name is not in the supported set.
    InvalidNetwork,
    /// No subcommand was named, though one is required.
    MissingSubcommand,
}

/// The usage message shown for a parse failure.
pub open spec fn error_message(e: ParseError) -> Seq<char> {
    match e {
        ParseError::ExcessVerbosity => "verbosity flag given more than four times"@,
        ParseError::InvalidNetwork => "unrecognized network name"@,
        ParseError::MissingSubcommand => "a subcommand is required"@,
    }
}

impl ParseError {
    /// The usage message for this failure.
    pub fn message(&self) -> (r: &'static str)
        ensures
            r@ == error_message(*self),
    {
        match self {
            ParseError::ExcessVerbosity => "verbosity flag given more than four times",
            ParseError::InvalidNetwork => "unrecognized network name",
            ParseError::MissingSubcommand => "a subcommand is required",
        }
    }
}

/// The raw options: the direct, validated image of what the command line
/// and environment supplied, with defaults filled in.
#[derive(Clone, Debug)]
pub struct Opts {
    /// Verbosity level, one per occurrence of the flag, at most
    /// `VERBOSITY_MAX`.
    pub verbose: u8,
    /// Data directory for keeping information about keyrings, assets etc.
    pub data_dir: String,
    /// IPC connection string for the bp daemon API.
    pub bpd_api: String,
    /// IPC connection string for bp daemon push notifications.
    pub bpd_subscr: String,
    /// Network to use.
    pub network: Network,
    /// The chosen subcommand.
    pub command: String,
}

/// When option input is accepted: the verbosity bound holds, the resolved
/// network name is recognized, and a subcommand was named.
pub open spec fn accepts(input: OptInput) -> bool {
    &&& input.verbose <= VERBOSITY_MAX
    &&& network_of_name(resolved(input.network, NETWORK_NAME@)) is Some
    &&& input.command is Some
}

impl Opts {
    /// Validates the option input and fills the defaults in. Rejected are,
    /// in this order: a verbosity count over the bound, an unrecognized
    /// resolved network name, and a missing subcommand; everything else is
    /// accepted, with each option resolved as flag over environment over
    /// default.
    pub fn from_input(input: OptInput) -> (r: Result<Opts, ParseError>)
        ensures
            r is Ok <==> accepts(input),
            input.verbose > VERBOSITY_MAX ==> r == Err::<Opts, ParseError>(
                ParseError::ExcessVerbosity,
            ),
            input.verbose <= VERBOSITY_MAX && network_of_name(
                resolved(input.network, NETWORK_NAME@),
            ) is None ==> r == Err::<Opts, ParseError>(ParseError::InvalidNetwork),
            input.verbose <= VERBOSITY_MAX && network_of_name(
                resolved(input.network, NETWORK_NAME@),
            ) is Some && input.command is None ==> r == Err::<Opts, ParseError>(
                ParseError::MissingSubcommand,
            ),
            r matches Ok(o) ==> o.verbose == input.verbose,
            r matches Ok(o) ==> o.data_dir@ == resolved(input.data_dir, DATA_DIR@),
            r matches Ok(o) ==> o.bpd_api@ == resolved(input.bpd_api, BPD_API_ADDR@),
            r matches Ok(o) ==> o.bpd_subscr@ == resolved(input.bpd_subscr, BPD_PUSH_ADDR@),
            r matches Ok(o) ==> Some(o.network) == network_of_name(
                resolved(input.network, NETWORK_NAME@),
            ),
            r matches Ok(o) ==> (input.command matches Some(c) && o.command@ == c@),
    {
        if input.verbose > VERBOSITY_MAX {
            return Err(ParseError::ExcessVerbosity);
        }
        let network_text = input.network.resolve(NETWORK_NAME);
        let network = match Network::from_name(network_text.as_str()) {
            Some(n) => n,
            None => {
                return Err(ParseError::InvalidNetwork);
            },
        };
        let command = match input.command {
            Some(c) => c,
            None => {
                return Err(ParseError::MissingSubcommand);
            },
        };
        Ok(
            Opts {
                verbose: input.verbose,
                data_dir: input.data_dir.resolve(DATA_DIR),
                bpd_api: input.bpd_api.resolve(BPD_API_ADDR),
                bpd_subscr: input.bpd_subscr.resolve(BPD_PUSH_ADDR),
                network,
                command,
            },
        )
    }
}

/// The configuration record the rest of the program runs on. The data
/// directory and the subcommand are deliberately not carried over from the
/// raw options.
#[derive(Clone, Debug)]
pub struct Config {
    pub verbose: u8,
    pub network: Network,
    pub bpd_api: String,
    pub bpd_subscr: String,
}

/// The configuration derived from raw options: verbosity, network and both
/// endpoint addresses are carried over verbatim.
pub open spec fn config_of(opts: Opts) -> Config {
    Config {
        verbose: opts.verbose,
        network: opts.network,
        bpd_api: opts.bpd_api,
        bpd_subscr: opts.bpd_subscr,
    }
}

/// Law: deriving a configuration from raw options preserves verbosity, the
/// network and both endpoint addresses exactly.
pub proof fn lemma_config_preserves_options(opts: Opts)
    ensures
        config_of(opts).verbose == opts.verbose,
        config_of(opts).network == opts.network,
        config_of(opts).bpd_api@ == opts.bpd_api@,
        config_of(opts).bpd_subscr@ == opts.bpd_subscr@,
{
}

/// The fixed default configuration record: verbosity 0, the default
/// network, and both default endpoint addresses.
pub open spec fn is_default_config(c: Config) -> bool {
    &&& c.verbose == 0
    &&& c.network == Network::Testnet
    &&& c.bpd_api@ == BPD_API_ADDR@
    &&& c.bpd_subscr@ == BPD_PUSH_ADDR@
}

impl From<Opts> for Config {
    fn from(opts: Opts) -> (r: Config) {
        Config {
            verbose: opts.verbose,
            network: opts.network,
            bpd_api: opts.bpd_api,
            bpd_subscr: opts.bpd_subscr,
        }
    }
}

impl vstd::std_specs::convert::FromSpecImpl<Opts> for Config {
    open spec fn obeys_from_spec() -> bool {
        true
    }

    open spec fn from_spec(opts: Opts) -> Config {
        config_of(opts)
    }
}

impl PartialEq for Config {
    fn eq(&self, other: &Config) -> (r: bool) {
        self.verbose == other.verbose && self.network == other.network && self.bpd_api
            == other.bpd_api && self.bpd_subscr == other.bpd_subscr
    }
}

impl vstd::std_specs::cmp::PartialEqSpecImpl for Config {
    open spec fn obeys_eq_spec() -> bool {
        true
    }

    open spec fn eq_spec(&self, other: &Config) -> bool {
        &&& self.verbose == other.verbose
        &&& self.network == other.network
        &&& self.bpd_api@ == other.bpd_api@
        &&& self.bpd_subscr@ == other.bpd_subscr@
    }
}

impl Eq for Config {

}

impl Default for Config {
    /// The fixed default configuration, used whenever a configuration is
    /// wanted without going through raw options.
    fn default() -> (r: Config)
        ensures
            is_default_config(r),
    {
        Config {
            verbose: 0,
            network: Network::Testnet,
            bpd_api: BPD_API_ADDR.to_owned(),
            bpd_subscr: BPD_PUSH_ADDR.to_owned(),
        }
    }
}

} // verus!
