//! The configuration of connections.
use libc::c_int;
use quiche::{Config, CongestionControlAlgorithm, Error};
use vstd::prelude::*;

use crate::error::{error_code, error_to_c};

verus! {

/// The version of the protocol.
pub const QUICHE_PROTOCOL_VERSION: u32 = 0x0000_0001;

/// `quiche::Config`, opaque.
#[verifier::external_type_specification]
#[verifier::external_body]
pub struct ExConfig(quiche::Config);

/// `quiche::CongestionControlAlgorithm`, with its variants.
#[verifier::external_type_specification]
pub struct ExCongestionControlAlgorithm(quiche::CongestionControlAlgorithm);

/// The settings that a configuration holds.
#[verifier::ext_equal]
pub struct Settings {
    /// The application protocols, the preferred one first.
    pub protocols: Seq<Seq<u8>>,
    /// In milliseconds.
    pub max_idle_timeout: u64,
    pub initial_max_data: u64,
    pub initial_max_stream_data_bidi_local: u64,
    pub initial_max_stream_data_bidi_remote: u64,
    pub initial_max_stream_data_uni: u64,
    pub initial_max_streams_bidi: u64,
    pub initial_max_streams_uni: u64,
    pub cc_algorithm: CongestionControlAlgorithm,
    pub disable_active_migration: bool,
    /// Whether the keys of connections are logged.
    pub logs_keys: bool,
}

/// The settings that a `quiche::Config` holds.
pub uninterp spec fn settings_of(config: Config) -> Settings;

/// Trusted: `quiche::Config::set_max_idle_timeout` sets that one setting.
pub assume_specification[ Config::set_max_idle_timeout ](config: &mut Config, v: u64)
    ensures
        settings_of(*final(config)) == (Settings { max_idle_timeout: v, ..settings_of(*old(config)) }),
;

/// Trusted: `quiche::Config::set_initial_max_data` sets that one setting.
pub assume_specification[ Config::set_initial_max_data ](config: &mut Config, v: u64)
    ensures
        settings_of(*final(config)) == (Settings { initial_max_data: v, ..settings_of(*old(config)) }),
;

/// Trusted: `quiche::Config::set_initial_max_stream_data_bidi_local` sets that one setting.
pub assume_specification[ Config::set_initial_max_stream_data_bidi_local ](config: &mut Config, v: u64)
    ensures
        settings_of(*final(config)) == (Settings { initial_max_stream_data_bidi_local: v, ..settings_of(*old(config)) }),
;

/// Trusted: `quiche::Config::set_initial_max_stream_data_bidi_remote` sets that one setting.
pub assume_specification[ Config::set_initial_max_stream_data_bidi_remote ](config: &mut Config, v: u64)
    ensures
        settings_of(*final(config)) == (Settings { initial_max_stream_data_bidi_remote: v, ..settings_of(*old(config)) }),
;

/// Trusted: `quiche::Config::set_initial_max_stream_data_uni` sets that one setting.
pub assume_specification[ Config::set_initial_max_stream_data_uni ](config: &mut Config, v: u64)
    ensures
        settings_of(*final(config)) == (Settings { initial_max_stream_data_uni: v, ..settings_of(*old(config)) }),
;

/// Trusted: `quiche::Config::set_initial_max_streams_bidi` sets that one setting.
pub assume_specification[ Config::set_initial_max_streams_bidi ](config: &mut Config, v: u64)
    ensures
        settings_of(*final(config)) == (Settings { initial_max_streams_bidi: v, ..settings_of(*old(config)) }),
;

/// Trusted: `quiche::Config::set_initial_max_streams_uni` sets that one setting.
pub assume_specification[ Config::set_initial_max_streams_uni ](config: &mut Config, v: u64)
    ensures
        settings_of(*final(config)) == (Settings { initial_max_streams_uni: v, ..settings_of(*old(config)) }),
;

/// Trusted: `quiche::Config::set_disable_active_migration` sets that one setting.
pub assume_specification[ Config::set_disable_active_migration ](config: &mut Config, v: bool)
    ensures
        settings_of(*final(config)) == (Settings { disable_active_migration: v, ..settings_of(*old(config)) }),
;

/// Trusted: `quiche::Config::set_cc_algorithm` sets that one setting.
pub assume_specification[ Config::set_cc_algorithm ](config: &mut Config, algo: CongestionControlAlgorithm)
    ensures
        settings_of(*final(config)) == (Settings { cc_algorithm: algo, ..settings_of(*old(config)) }),
;

/// Trusted: `quiche::Config::log_keys` turns the logging of keys on, and changes
/// no other setting.
pub assume_specification[ Config::log_keys ](config: &mut Config)
    ensures
        settings_of(*final(config)) == (Settings { logs_keys: true, ..settings_of(*old(config)) }),
;

/// A list of names on the wire: each one after a byte that holds its length.
pub open spec fn wire_list(names: Seq<Seq<u8>>) -> Seq<u8>
    decreases names.len(),
{
    if names.len() == 0 {
        Seq::empty()
    } else {
        wire_list(names.drop_last()) + seq![names.last().len() as u8] + names.last()
    }
}

/// Every name in a list fits the byte that holds its length.
pub open spec fn names_fit(names: Seq<Seq<u8>>) -> bool {
    forall|i: int| 0 <= i < names.len() ==> (#[trigger] names[i]).len() <= 255
}

/// No name in a list is empty.
pub open spec fn no_name_empty(names: Seq<Seq<u8>>) -> bool {
    forall|i: int| 0 <= i < names.len() ==> (#[trigger] names[i]).len() > 0
}

/// Trusted: `quiche::Config::set_application_protos` reads the names from the
/// list and keeps them, in this order, and hands them to the TLS library. As long
/// as there is memory, that takes a list of names of which none is empty, and
/// refuses one with an empty name. Its length has 32 bits, so nothing is said of
/// whether it takes a longer list. Failing means `TlsFail`.
pub assume_specification[ Config::set_application_protos ](
    config: &mut Config,
    protos: &[u8],
) -> (res: Result<(), Error>)
    ensures
        forall|names: Seq<Seq<u8>>|
            protos@ == #[trigger] wire_list(names) && names_fit(names) ==> {
                &&& settings_of(*final(config)) == (Settings {
                    protocols: names,
                    ..settings_of(*old(config))
                })
                &&& protos@.len() <= u32::MAX ==> (res is Ok <==> no_name_empty(names))
            },
        res matches Err(e) ==> e is TlsFail,
;

/// The application protocols that both ends speak, the preferred one first:
/// `hq-28`, `hq-27` and `http/0.9`.
pub open spec fn protocol_names() -> Seq<Seq<u8>> {
    seq![
        seq![0x68u8, 0x71, 0x2d, 0x32, 0x38],
        seq![0x68u8, 0x71, 0x2d, 0x32, 0x37],
        seq![0x68u8, 0x74, 0x74, 0x70, 0x2f, 0x30, 0x2e, 0x39],
    ]
}

/// The application protocols, as they are given to the transport.
pub fn application_protos() -> (list: Vec<u8>)
    ensures
        list@ == wire_list(protocol_names()),
        list@.len() == 21,
{
    let list: Vec<u8> = vec![
        5, 0x68, 0x71, 0x2d, 0x32, 0x38,
        5, 0x68, 0x71, 0x2d, 0x32, 0x37,
        8, 0x68, 0x74, 0x74, 0x70, 0x2f, 0x30, 0x2e, 0x39,
    ];
    proof {
        let names = protocol_names();
        reveal_with_fuel(wire_list, 4);
        let two = names.drop_last();
        let one = two.drop_last();
        assert(one.drop_last() =~= Seq::empty());
        assert(one.last() == names[0]);
        assert(two.last() == names[1]);
        assert(names.last() == names[2]);
        assert(list@ =~= wire_list(names));
    }
    list
}

/// What has to go well before there is a configuration, in this order.
#[derive(Clone, Copy, Debug, PartialEq, Eq, Structural)]
pub enum ConfigStage {
    /// Make a configuration of the transport.
    Create,
    /// Load the certificate chain from `./cert.crt`.
    LoadCertificate,
    /// Load the private key from `./cert.key`.
    LoadKey,
    /// Set the application protocols and all other settings.
    Configure,
    /// All went well.
    Ready,
    /// Something went wrong: there is no configuration.
    Failed,
}

impl ConfigStage {
    /// The stage after this one, from whether its work went well. The last two
    /// stages have no work and stay.
    pub open spec fn after(self, ok: bool) -> ConfigStage {
        if self is Ready || self is Failed {
            self
        } else if !ok {
            ConfigStage::Failed
        } else {
            match self {
                ConfigStage::Create => ConfigStage::LoadCertificate,
                ConfigStage::LoadCertificate => ConfigStage::LoadKey,
                ConfigStage::LoadKey => ConfigStage::Configure,
                _ => ConfigStage::Ready,
            }
        }
    }

    /// Decides the next stage, from whether the work of this one went well.
    pub fn advance(self, ok: bool) -> (next: ConfigStage)
        ensures
            next == self.after(ok),
    {
        match self {
            ConfigStage::Ready => ConfigStage::Ready,
            ConfigStage::Failed => ConfigStage::Failed,
            _ if !ok => ConfigStage::Failed,
            ConfigStage::Create => ConfigStage::LoadCertificate,
            ConfigStage::LoadCertificate => ConfigStage::LoadKey,
            ConfigStage::LoadKey => ConfigStage::Configure,
            ConfigStage::Configure => ConfigStage::Ready,
        }
    }

    /// The file that the stage loads, if it loads one.
    pub fn path(self) -> (path: Option<&'static str>)
        ensures
            match path {
                Some(p) => self is LoadCertificate && p@ == "./cert.crt"@ || self is LoadKey && p@
                    == "./cert.key"@,
                None => !(self is LoadCertificate) && !(self is LoadKey),
            },
    {
        match self {
            ConfigStage::LoadCertificate => Some("./cert.crt"),
            ConfigStage::LoadKey => Some("./cert.key"),
            _ => None,
        }
    }
}

/// There is a configuration exactly when every stage went well.
pub proof fn configuration_needs_every_stage(created: bool, certificate: bool, key: bool, configured: bool)
    ensures
        ConfigStage::Create.after(created).after(certificate).after(key).after(configured)
            == if created && certificate && key && configured {
            ConfigStage::Ready
        } else {
            ConfigStage::Failed
        },
{
}

/// The settings that every configuration starts with, in place of those that
/// `before` holds; what a peer may do with one-way streams stays as it is. Keys
/// are logged if `log_keys`, or if they were before. The idle timeout is very
/// long, so that slow processing does not end a connection.
pub open spec fn initial_settings(before: Settings, log_keys: bool) -> Settings {
    Settings {
        protocols: protocol_names(),
        max_idle_timeout: 1000000,
        initial_max_data: 0xffff_ffff,
        initial_max_stream_data_bidi_local: 0xffff_ffff,
        initial_max_stream_data_bidi_remote: 0xffff_ffff,
        initial_max_streams_bidi: 0xffff_ffff,
        cc_algorithm: CongestionControlAlgorithm::Reno,
        disable_active_migration: true,
        logs_keys: before.logs_keys || log_keys,
        ..before
    }
}

/// Sets everything but the application protocols, and logs keys if `log_keys`.
fn apply_settings(config: &mut Config, log_keys: bool)
    ensures
        settings_of(*final(config)) == (Settings {
            protocols: settings_of(*old(config)).protocols,
            ..initial_settings(settings_of(*old(config)), log_keys)
        }),
{
    config.set_max_idle_timeout(1000000);
    config.set_initial_max_data(0xffff_ffff);
    config.set_initial_max_stream_data_bidi_local(0xffff_ffff);
    config.set_initial_max_stream_data_bidi_remote(0xffff_ffff);
    config.set_initial_max_streams_bidi(0xffff_ffff);
    config.set_cc_algorithm(CongestionControlAlgorithm::Reno);
    config.set_disable_active_migration(true);
    if log_keys {
        config.log_keys();
    }
}

/// A configuration: that of the transport, and the switch for the GM/T cipher
/// suites.
pub struct DtpConfig {
    pub config: Config,
    /// Whether the GM/T cipher suites are asked for. The transport has none, so
    /// that it does not see the switch.
    pub gmssl: u64,
}

/// Gives a configuration, into which the certificate chain and the private key
/// were loaded, the settings to start with. The application protocols are among
/// those that are taken, so it always goes well.
pub fn dtp_config_init(config: &mut DtpConfig, log_keys: bool) -> (done: bool)
    ensures
        done,
        settings_of(final(config).config) == initial_settings(
            settings_of(old(config).config),
            log_keys,
        ),
        final(config).gmssl == old(config).gmssl,
{
    let protos: Vec<u8> = application_protos();
    match config.config.set_application_protos(protos.as_slice()) {
        Ok(()) => {
            apply_settings(&mut config.config, log_keys);
            true
        },
        Err(_) => false,
    }
}

/// The number that reports how loading a file into a configuration ended; a
/// configuration that is not there is `None`.
pub open spec fn load_code(loaded: Option<Result<(), Error>>) -> int {
    match loaded {
        None => -1,
        Some(Ok(_)) => 0,
        Some(Err(e)) => error_code(e),
    }
}

fn load_report(loaded: Option<Result<(), Error>>) -> (code: c_int)
    ensures
        code == load_code(loaded),
{
    match loaded {
        None => -1,
        Some(Ok(_)) => 0,
        Some(Err(e)) => error_to_c(e) as c_int,
    }
}

/// Reports how loading a certificate chain ended.
pub fn dtp_config_load_cert_chain_from_pem_file(loaded: Option<Result<(), Error>>) -> (code: c_int)
    ensures
        code == load_code(loaded),
{
    load_report(loaded)
}

/// Reports how loading a private key ended.
pub fn dtp_config_load_priv_key_from_pem_file(loaded: Option<Result<(), Error>>) -> (code: c_int)
    ensures
        code == load_code(loaded),
{
    load_report(loaded)
}

/// Sets the idle timeout, in milliseconds.
///
/// Fails if there is no configuration; leaves every other setting alone.
pub fn dtp_config_set_max_idle_timeout(config: Option<&mut DtpConfig>, v: u64) -> (code: c_int)
    ensures
        match config {
            Some(c) => {
                &&& code == 0
                &&& settings_of(final(c).config) == (Settings { max_idle_timeout: v, ..settings_of(c.config) })
                &&& final(c).gmssl == c.gmssl
            },
            None => code == -1,
        },
{
    match config {
        Some(config) => {
            config.config.set_max_idle_timeout(v);
            0
        },
        None => -1,
    }
}

/// Sets how much a peer may send at first on a two-way stream that this end
/// opens.
///
/// Fails if there is no configuration; leaves every other setting alone.
pub fn dtp_config_set_initial_max_stream_data_bidi_local(config: Option<&mut DtpConfig>, v: u64) -> (code: c_int)
    ensures
        match config {
            Some(c) => {
                &&& code == 0
                &&& settings_of(final(c).config) == (Settings { initial_max_stream_data_bidi_local: v, ..settings_of(c.config) })
                &&& final(c).gmssl == c.gmssl
            },
            None => code == -1,
        },
{
    match config {
        Some(config) => {
            config.config.set_initial_max_stream_data_bidi_local(v);
            0
        },
        None => -1,
    }
}

/// Sets how much a peer may send at first on a two-way stream that it opens.
///
/// Fails if there is no configuration; leaves every other setting alone.
pub fn dtp_config_set_initial_max_stream_data_bidi_remote(config: Option<&mut DtpConfig>, v: u64) -> (code: c_int)
    ensures
        match config {
            Some(c) => {
                &&& code == 0
                &&& settings_of(final(c).config) == (Settings { initial_max_stream_data_bidi_remote: v, ..settings_of(c.config) })
                &&& final(c).gmssl == c.gmssl
            },
            None => code == -1,
        },
{
    match config {
        Some(config) => {
            config.config.set_initial_max_stream_data_bidi_remote(v);
            0
        },
        None => -1,
    }
}

/// Sets how much a peer may send at first on a one-way stream.
///
/// Fails if there is no configuration; leaves every other setting alone.
pub fn dtp_config_set_initial_max_stream_data_uni(config: Option<&mut DtpConfig>, v: u64) -> (code: c_int)
    ensures
        match config {
            Some(c) => {
                &&& code == 0
                &&& settings_of(final(c).config) == (Settings { initial_max_stream_data_uni: v, ..settings_of(c.config) })
                &&& final(c).gmssl == c.gmssl
            },
            None => code == -1,
        },
{
    match config {
        Some(config) => {
            config.config.set_initial_max_stream_data_uni(v);
            0
        },
        None => -1,
    }
}

/// Sets how many two-way streams a peer may open at first.
///
/// Fails if there is no configuration; leaves every other setting alone.
pub fn dtp_config_set_initial_max_streams_bidi(config: Option<&mut DtpConfig>, v: u64) -> (code: c_int)
    ensures
        match config {
            Some(c) => {
                &&& code == 0
                &&& settings_of(final(c).config) == (Settings { initial_max_streams_bidi: v, ..settings_of(c.config) })
                &&& final(c).gmssl == c.gmssl
            },
            None => code == -1,
        },
{
    match config {
        Some(config) => {
            config.config.set_initial_max_streams_bidi(v);
            0
        },
        None => -1,
    }
}

/// Sets how many one-way streams a peer may open at first.
///
/// Fails if there is no configuration; leaves every other setting alone.
pub fn dtp_config_set_initial_max_streams_uni(config: Option<&mut DtpConfig>, v: u64) -> (code: c_int)
    ensures
        match config {
            Some(c) => {
                &&& code == 0
                &&& settings_of(final(c).config) == (Settings { initial_max_streams_uni: v, ..settings_of(c.config) })
                &&& final(c).gmssl == c.gmssl
            },
            None => code == -1,
        },
{
    match config {
        Some(config) => {
            config.config.set_initial_max_streams_uni(v);
            0
        },
        None => -1,
    }
}

/// Turns the GM/T cipher suites of a configuration on or off.
///
/// Fails if there is no configuration; leaves every other setting alone.
pub fn dtp_config_set_gmssl_key(config: Option<&mut DtpConfig>, v: u64) -> (code: c_int)
    ensures
        match config {
            Some(c) => {
                &&& code == 0
                &&& final(c).gmssl == v
                &&& final(c).config == c.config
            },
            None => code == -1,
        },
{
    match config {
        Some(config) => {
            config.gmssl = v;
            0
        },
        None => -1,
    }
}

/// Whatever a configuration held, it starts with these settings: an idle timeout
/// of a thousand seconds, four gigabytes less one for all data, for the data of
/// each two-way stream and for the number of these, Reno, and no migration. The
/// limits of one-way streams stay, and keys are logged if asked for.
pub proof fn configurations_start_alike(before: Settings, log_keys: bool)
    ensures
        ({
            let settings = initial_settings(before, log_keys);
            &&& settings.max_idle_timeout == 1_000_000
            &&& settings.initial_max_data == 0xffff_ffff
            &&& settings.initial_max_stream_data_bidi_local == 0xffff_ffff
            &&& settings.initial_max_stream_data_bidi_remote == 0xffff_ffff
            &&& settings.initial_max_streams_bidi == 0xffff_ffff
            &&& settings.initial_max_stream_data_uni == before.initial_max_stream_data_uni
            &&& settings.initial_max_streams_uni == before.initial_max_streams_uni
            &&& settings.cc_algorithm is Reno
            &&& settings.disable_active_migration
            &&& settings.logs_keys <==> before.logs_keys || log_keys
            &&& settings.protocols.len() == 3
            &&& settings.protocols[0] == seq![0x68u8, 0x71, 0x2d, 0x32, 0x38]
            &&& settings.protocols[1] == seq![0x68u8, 0x71, 0x2d, 0x32, 0x37]
            &&& settings.protocols[2] == seq![0x68u8, 0x74, 0x74, 0x70, 0x2f, 0x30, 0x2e, 0x39]
        }),
{
}

/// On the wire a name is added to a list by its length and its bytes.
pub proof fn names_follow_their_length(names: Seq<Seq<u8>>, name: Seq<u8>)
    ensures
        wire_list(Seq::empty()).len() == 0,
        wire_list(names.push(name)) == wire_list(names).push(name.len() as u8) + name,
{
    assert(names.push(name).drop_last() =~= names);
    assert(wire_list(names.push(name)) =~= wire_list(names).push(name.len() as u8) + name);
}

/// A configuration is made in four steps, the certificate before the key and both
/// before the settings; any of them that fails ends it, and the end stays.
pub proof fn stages_follow_one_another(stage: ConfigStage, ok: bool)
    ensures
        ConfigStage::Create.after(true) is LoadCertificate,
        ConfigStage::LoadCertificate.after(true) is LoadKey,
        ConfigStage::LoadKey.after(true) is Configure,
        ConfigStage::Configure.after(true) is Ready,
        !(stage is Ready) ==> stage.after(false) is Failed,
        stage is Ready || stage is Failed ==> stage.after(ok) == stage,
{
}

/// Loading a file is reported by 0, a failure by its number, and a missing
/// configuration by -1.
pub proof fn loading_is_reported(e: Error)
    ensures
        load_code(None) == -1,
        load_code(Some(Ok(()))) == 0,
        load_code(Some(Err(e))) == error_code(e),
{
}

} // verus!
