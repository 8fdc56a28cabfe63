//! The configuration of the time daemon.

use crate::text::comma_entries;
use crate::text::parse_u32;
use crate::text::parse_u8;
use crate::text::same_text;
use crate::text::split_entries;
use crate::text::unsigned_numeral;
use vstd::prelude::*;

verus! {

/// The configuration of the time daemon.
#[derive(Debug, Clone)]
pub struct NtpConfig {
    pub servers: Vec<NtpServer>,
    pub pps: Option<PpsConfig>,
    pub gps: Option<GpsConfig>,
    pub stratum: Option<u8>,
    pub drift_file: String,
    pub stats_dir: String,
}

/// A time server that the daemon follows.
#[derive(Debug, Clone)]
pub struct NtpServer {
    pub host: String,
    pub iburst: bool,
    pub prefer: bool,
    pub minpoll: Option<u8>,
    pub maxpoll: Option<u8>,
}

/// A pulse-per-second source.
#[derive(Debug, Clone)]
pub struct PpsConfig {
    pub enabled: bool,
    pub device: String,
    pub gpio_pin: Option<u32>,
}

/// A satellite receiver.
#[derive(Debug, Clone)]
pub struct GpsConfig {
    pub enabled: bool,
    pub device: String,
    pub baud_rate: u32,
}

/// The settings that the environment may hold for the daemon, each as it was
/// found there: `None` where the variable is not set.
#[derive(Debug, Clone)]
pub struct NtpEnvironment {
    /// `NTP_SERVERS`: the hosts of the servers, parted by commas.
    pub ntp_servers: Option<String>,
    /// `ENABLE_PPS`: `yes` for a pulse-per-second source.
    pub enable_pps: Option<String>,
    /// `PPS_GPIO`: the pin of the pulse.
    pub pps_gpio: Option<String>,
    /// `ENABLE_GPS`: `yes` for a satellite receiver.
    pub enable_gps: Option<String>,
    /// `GPS_DEVICE`: the device of the receiver.
    pub gps_device: Option<String>,
    /// `GPS_BAUD`: the speed of the receiver's line.
    pub gps_baud: Option<String>,
    /// `LOCAL_STRATUM`: the stratum of the local clock.
    pub local_stratum: Option<String>,
}

impl NtpServer {
    /// The server is one that is named by its host alone: it is sent a burst
    /// at the start, is not preferred, and is polled at the daemon's pace.
    pub open spec fn is_plain(&self, host: Seq<char>) -> bool {
        &&& self.host@ == host
        &&& self.iburst
        &&& !self.prefer
        &&& self.minpoll is None
        &&& self.maxpoll is None
    }

    /// The server at `host`, with the settings of a server that is named by
    /// its host alone.
    pub fn plain(host: String) -> (r: NtpServer)
        ensures
            r.is_plain(host@),
            r.host == host,
    {
        NtpServer { host, iburst: true, prefer: false, minpoll: None, maxpoll: None }
    }
}

impl NtpEnvironment {
    /// Whether the setting says `yes`.
    pub open spec fn says_yes(setting: Option<String>) -> bool {
        setting matches Some(text) && text@ == "yes"@
    }

    /// The number that the setting writes, if it is set and writes one that
    /// is at most `max`.
    pub open spec fn number(setting: Option<String>, max: int) -> Option<int> {
        match setting {
            Some(text) => unsigned_numeral(text@, max),
            None => None,
        }
    }
}

impl NtpConfig {
    /// The configuration is the one that holds where nothing is set: two
    /// public servers, no pulse, no receiver, local stratum 10.
    pub open spec fn is_default(&self) -> bool {
        &&& self.servers.len() == 2
        &&& self.servers[0].is_plain("time.cloudflare.com"@)
        &&& self.servers[1].is_plain("time.google.com"@)
        &&& self.pps is None
        &&& self.gps is None
        &&& self.stratum == Some(10u8)
        &&& self.drift_file@ == "/var/lib/ntp/ntp.drift"@
        &&& self.stats_dir@ == "/var/log/ntpstats"@
    }

    /// The servers are those of the default where `NTP_SERVERS` is not set,
    /// else one for each entry of its list, in order, also for an empty entry.
    pub open spec fn servers_follow(&self, environment: NtpEnvironment) -> bool {
        match environment.ntp_servers {
            Some(list) => {
                &&& self.servers.len() == comma_entries(list@).len()
                &&& forall|i: int|
                    0 <= i < self.servers.len() ==> (#[trigger] self.servers[i]).is_plain(
                        comma_entries(list@)[i],
                    )
            },
            None => {
                &&& self.servers.len() == 2
                &&& self.servers[0].is_plain("time.cloudflare.com"@)
                &&& self.servers[1].is_plain("time.google.com"@)
            },
        }
    }

    /// There is a pulse-per-second source where `ENABLE_PPS` says `yes`: on
    /// `/dev/pps0`, with the pin that `PPS_GPIO` writes, if it writes one.
    pub open spec fn pps_follows(&self, environment: NtpEnvironment) -> bool {
        if NtpEnvironment::says_yes(environment.enable_pps) {
            &&& self.pps matches Some(pps)
            &&& pps.enabled
            &&& pps.device@ == "/dev/pps0"@
            &&& match NtpEnvironment::number(environment.pps_gpio, u32::MAX as int) {
                Some(pin) => pps.gpio_pin == Some(pin as u32),
                None => pps.gpio_pin is None,
            }
        } else {
            self.pps is None
        }
    }

    /// There is a satellite receiver where `ENABLE_GPS` says `yes`: on the
    /// device of `GPS_DEVICE`, `/dev/ttyAMA0` where that is not set, at the
    /// speed that `GPS_BAUD` writes, 9600 where it writes none.
    pub open spec fn gps_follows(&self, environment: NtpEnvironment) -> bool {
        if NtpEnvironment::says_yes(environment.enable_gps) {
            &&& self.gps matches Some(gps)
            &&& gps.enabled
            &&& gps.device@ == match environment.gps_device {
                Some(device) => device@,
                None => "/dev/ttyAMA0"@,
            }
            &&& gps.baud_rate == match NtpEnvironment::number(
                environment.gps_baud,
                u32::MAX as int,
            ) {
                Some(baud) => baud,
                None => 9600,
            }
        } else {
            self.gps is None
        }
    }

    /// The local stratum is 10 where `LOCAL_STRATUM` is not set, else the
    /// number that it writes, and none where it writes none.
    pub open spec fn stratum_follows(&self, environment: NtpEnvironment) -> bool {
        match environment.local_stratum {
            Some(text) => match unsigned_numeral(text@, u8::MAX as int) {
                Some(n) => self.stratum == Some(n as u8),
                None => self.stratum is None,
            },
            None => self.stratum == Some(10u8),
        }
    }

    /// The configuration that the settings of the environment ask for: the
    /// default, changed by each setting that is there.
    pub fn from_env(environment: &NtpEnvironment) -> (r: NtpConfig)
        ensures
            r.servers_follow(*environment),
            r.pps_follows(*environment),
            r.gps_follows(*environment),
            r.stratum_follows(*environment),
            r.drift_file@ == "/var/lib/ntp/ntp.drift"@,
            r.stats_dir@ == "/var/log/ntpstats"@,
    {
        let mut config = NtpConfig::default();
        match &environment.ntp_servers {
            Some(list) => {
                let hosts = split_entries(list.as_str());
                let mut servers: Vec<NtpServer> = Vec::new();
                let mut i: usize = 0;
                while i < hosts.len()
                    invariant
                        i <= hosts.len(),
                        servers.len() == i,
                        forall|j: int| 0 <= j < i ==> (#[trigger] servers[j]).is_plain(hosts[j]@),
                    decreases hosts.len() - i,
                {
                    servers.push(NtpServer::plain(hosts[i].clone()));
                    i += 1;
                }
                config.servers = servers;
            },
            None => {},
        }
        match &environment.enable_pps {
            Some(enabled) => {
                if same_text(enabled.as_str(), "yes") {
                    let gpio_pin = match &environment.pps_gpio {
                        Some(pin) => parse_u32(pin.as_str()),
                        None => None,
                    };
                    config.pps = Some(
                        PpsConfig {
                            enabled: true,
                            device: String::from_str("/dev/pps0"),
                            gpio_pin,
                        },
                    );
                }
            },
            None => {},
        }
        match &environment.enable_gps {
            Some(enabled) => {
                if same_text(enabled.as_str(), "yes") {
                    let device = match &environment.gps_device {
                        Some(device) => device.clone(),
                        None => String::from_str("/dev/ttyAMA0"),
                    };
                    let baud = match &environment.gps_baud {
                        Some(baud) => parse_u32(baud.as_str()),
                        None => None,
                    };
                    let baud_rate: u32 = match baud {
                        Some(n) => n,
                        None => 9600,
                    };
                    config.gps = Some(GpsConfig { enabled: true, device, baud_rate });
                }
            },
            None => {},
        }
        match &environment.local_stratum {
            Some(stratum) => {
                config.stratum = parse_u8(stratum.as_str());
            },
            None => {},
        }
        config
    }
}

impl Default for NtpConfig {
    /// The configuration that holds where nothing is set.
    fn default() -> (r: NtpConfig)
        ensures
            r.is_default(),
    {
        let mut servers: Vec<NtpServer> = Vec::new();
        servers.push(NtpServer::plain(String::from_str("time.cloudflare.com")));
        servers.push(NtpServer::plain(String::from_str("time.google.com")));
        NtpConfig {
            servers,
            pps: None,
            gps: None,
            stratum: Some(10),
            drift_file: String::from_str("/var/lib/ntp/ntp.drift"),
            stats_dir: String::from_str("/var/log/ntpstats"),
        }
    }
}

} // verus!
