//! Tests for option resolution and configuration building.

use kaleidoscope::config::{
    Config, OptInput, OptSource, Opts, ParseError, BPD_API_ADDR, BPD_PUSH_ADDR, DATA_DIR,
    NETWORK_NAME, VERBOSITY_MAX,
};
use kaleidoscope::network::Network;

fn absent() -> OptSource {
    OptSource { flag: None, env: None }
}

fn plain_input(verbose: u8, command: Option<&str>) -> OptInput {
    OptInput {
        verbose,
        data_dir: absent(),
        bpd_api: absent(),
        bpd_subscr: absent(),
        network: absent(),
        command: command.map(|c| c.to_string()),
    }
}

#[test]
fn default_config_is_the_fixed_record() {
    let c = Config::default();
    assert_eq!(c.verbose, 0);
    assert_eq!(c.network, Network::Testnet);
    assert_eq!(c.bpd_api, BPD_API_ADDR);
    assert_eq!(c.bpd_subscr, BPD_PUSH_ADDR);
    let record = Config {
        verbose: 0,
        network: Network::Testnet,
        bpd_api: BPD_API_ADDR.to_string(),
        bpd_subscr: BPD_PUSH_ADDR.to_string(),
    };
    assert_eq!(c, record);
}

#[test]
fn config_from_opts_preserves_fields() {
    let opts = Opts {
        verbose: 3,
        data_dir: "/tmp/wallet".to_string(),
        bpd_api: "tcp://10.0.0.1:9000".to_string(),
        bpd_subscr: "tcp://10.0.0.1:9001".to_string(),
        network: Network::Regtest,
        command: "query".to_string(),
    };
    let config = Config::from(opts);
    assert_eq!(config.verbose, 3);
    assert_eq!(config.network, Network::Regtest);
    assert_eq!(config.bpd_api, "tcp://10.0.0.1:9000");
    assert_eq!(config.bpd_subscr, "tcp://10.0.0.1:9001");
}

#[test]
fn verbosity_in_bound_is_kept() {
    let mut n: u8 = 0;
    while n <= VERBOSITY_MAX {
        let opts = Opts::from_input(plain_input(n, Some("query"))).unwrap();
        assert_eq!(opts.verbose, n);
        n += 1;
    }
}

#[test]
fn verbosity_over_bound_is_rejected() {
    let r = Opts::from_input(plain_input(5, Some("query")));
    assert_eq!(r.unwrap_err(), ParseError::ExcessVerbosity);
    let r = Opts::from_input(plain_input(u8::MAX, Some("query")));
    assert_eq!(r.unwrap_err(), ParseError::ExcessVerbosity);
}

#[test]
fn endpoints_default_when_not_given() {
    let opts = Opts::from_input(plain_input(0, Some("query"))).unwrap();
    assert_eq!(opts.bpd_api, BPD_API_ADDR);
    assert_eq!(opts.bpd_subscr, BPD_PUSH_ADDR);
    assert_eq!(opts.data_dir, DATA_DIR);
}

#[test]
fn environment_value_overrides_default() {
    let mut input = plain_input(0, Some("query"));
    input.bpd_api = OptSource {
        flag: None,
        env: Some("tcp://192.168.0.5:7000".to_string()),
    };
    let opts = Opts::from_input(input).unwrap();
    assert_eq!(opts.bpd_api, "tcp://192.168.0.5:7000");
    assert_eq!(opts.bpd_subscr, BPD_PUSH_ADDR);
}

#[test]
fn flag_value_overrides_environment() {
    let mut input = plain_input(0, Some("query"));
    input.bpd_subscr = OptSource {
        flag: Some("tcp://10.1.1.1:8000".to_string()),
        env: Some("tcp://192.168.0.5:7000".to_string()),
    };
    let opts = Opts::from_input(input).unwrap();
    assert_eq!(opts.bpd_subscr, "tcp://10.1.1.1:8000");
}

#[test]
fn network_defaults_to_testnet() {
    let opts = Opts::from_input(plain_input(0, Some("query"))).unwrap();
    assert_eq!(opts.network, Network::Testnet);
    assert_eq!(NETWORK_NAME, "Testnet");
}

#[test]
fn unrecognized_network_is_rejected() {
    let mut input = plain_input(0, Some("query"));
    input.network = OptSource {
        flag: Some("Foonet".to_string()),
        env: None,
    };
    assert_eq!(Opts::from_input(input).unwrap_err(), ParseError::InvalidNetwork);
}

#[test]
fn unrecognized_network_from_environment_is_rejected() {
    let mut input = plain_input(0, Some("query"));
    input.network = OptSource {
        flag: None,
        env: Some("testnet".to_string()),
    };
    assert_eq!(Opts::from_input(input).unwrap_err(), ParseError::InvalidNetwork);
}

#[test]
fn missing_subcommand_is_rejected() {
    let r = Opts::from_input(plain_input(0, None));
    assert_eq!(r.unwrap_err(), ParseError::MissingSubcommand);
}

#[test]
fn verbosity_is_checked_before_network_and_subcommand() {
    let mut input = plain_input(5, None);
    input.network = OptSource {
        flag: Some("Foonet".to_string()),
        env: None,
    };
    assert_eq!(Opts::from_input(input).unwrap_err(), ParseError::ExcessVerbosity);
}

#[test]
fn mainnet_with_two_verbose_flags_and_subcommand() {
    let mut input = plain_input(2, Some("query"));
    input.network = OptSource {
        flag: Some("Mainnet".to_string()),
        env: None,
    };
    let opts = Opts::from_input(input).unwrap();
    let config = Config::from(opts);
    assert_eq!(config.verbose, 2);
    assert_eq!(config.network, Network::Mainnet);
    assert_eq!(config.bpd_api, BPD_API_ADDR);
    assert_eq!(config.bpd_subscr, BPD_PUSH_ADDR);
}

#[test]
fn each_error_has_its_message() {
    assert_eq!(
        ParseError::ExcessVerbosity.message(),
        "verbosity flag given more than four times"
    );
    assert_eq!(ParseError::InvalidNetwork.message(), "unrecognized network name");
    assert_eq!(ParseError::MissingSubcommand.message(), "a subcommand is required");
}

#[test]
fn subcommand_is_kept_in_opts() {
    let opts = Opts::from_input(plain_input(0, Some("transfer"))).unwrap();
    assert_eq!(opts.command, "transfer");
}

#[test]
fn absent_source_has_no_values() {
    let src = OptSource::absent();
    assert!(src.flag.is_none());
    assert!(src.env.is_none());
}

#[test]
fn resolve_picks_flag_then_env_then_default() {
    let both = OptSource {
        flag: Some("a".to_string()),
        env: Some("b".to_string()),
    };
    assert_eq!(both.resolve("c"), "a");
    let env_only = OptSource {
        flag: None,
        env: Some("b".to_string()),
    };
    assert_eq!(env_only.resolve("c"), "b");
    assert_eq!(OptSource::absent().resolve("c"), "c");
}
