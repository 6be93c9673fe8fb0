//! The decisions of the rendezvous server: its ports and keys, what each
//! event of its loop leads to, which peers may connect directly, and which
//! relay the others are sent to.

use crate::net::{LanMask, SocketAddress};
use crate::peer::{PeerMap, RegisterPkResult};
use crate::relay::{next_rotation, rotated, texts, RelayServers};
use crate::text::{copy_range, str_eq, to_uppercase, uppercase_of};
use vstd::prelude::*;
use vstd::string::*;

verus! {

/// The length of a secret signing key in bytes; its second half is the
/// public key.
pub const SECRET_KEY_BYTES: usize = 64;

/// The length of a signature in bytes.
pub const SIGNATURE_BYTES: usize = 64;

/// The smallest port that the server can listen on: the port below it is
/// used as well.
pub const MIN_PORT: i32 = 3;

/// The longest text or message, in bytes, that is handed to the codecs and
/// to the signer: a quarter of the address space, so that what they allocate
/// for it can exist.
pub const MAX_INPUT_BYTES: usize = usize::MAX / 4;

/// Milliseconds of silence after which a registration over UDP is stale.
pub const REG_TIMEOUT: i32 = 15_000;

/// Milliseconds to wait for the answer to a ping.
pub const PING_TIMEOUT: i32 = 10_000;

/// Milliseconds of silence after which a TCP connection is closed.
pub const TCP_CONNECTION_TIMEOUT: u64 = 20_000;

/// Milliseconds of silence after which a WebSocket connection is closed.
pub const WS_CONNECTION_TIMEOUT: u64 = 20_000;

/// Seconds between two sweeps of the peers where none are configured.
pub const HEARTBEAT_INTERVAL_DEFAULT: u64 = 3;

/// Milliseconds between two probes of the relay hosts, and the time that one
/// probe may take.
pub const CHECK_RELAY_TIMEOUT: u64 = 3_000;

/// Seconds between two reports of the statistics.
pub const STATS_INTERVAL_SECS: u64 = 60;

/// The bytes that `base64::decode` reads from a text, if it reads any.
pub uninterp spec fn base64_decoded(text: Seq<char>) -> Option<Seq<u8>>;

/// The text that `base64::encode` writes for some bytes.
pub uninterp spec fn base64_encoded(bytes: Seq<u8>) -> Seq<char>;

/// The signed message that `sodiumoxide::crypto::sign::sign` makes of a
/// message and a secret key.
pub uninterp spec fn signed_message(message: Seq<u8>, secret_key: Seq<u8>) -> Seq<u8>;

/// `base64::decode`: the bytes that `text` stands for in the standard
/// alphabet with padding, or nothing where it is no such text. The result
/// depends on the text alone. The crate reserves three bytes for every four
/// of the text, rounded up, before it decodes.
#[verifier::external_body]
fn base64_decode(text: &str) -> (r: Option<Vec<u8>>)
    requires
        vstd::utf8::encode_utf8(text@).len() <= MAX_INPUT_BYTES,
    ensures
        match r {
            Some(bytes) => base64_decoded(text@) == Some(bytes@),
            None => base64_decoded(text@) is None,
        },
{
    match base64::decode(text) {
        Ok(bytes) => Some(bytes),
        Err(_) => None,
    }
}

/// `base64::encode`: the text that stands for `bytes` in the standard
/// alphabet with padding. The result depends on the bytes alone. The crate
/// allocates the text, four characters for every three bytes, before it
/// encodes.
#[verifier::external_body]
fn base64_encode(bytes: &[u8]) -> (r: String)
    requires
        bytes@.len() <= MAX_INPUT_BYTES,
    ensures
        r@ == base64_encoded(bytes@),
{
    base64::encode(bytes)
}

/// `sodiumoxide::crypto::sign::SecretKey::from_slice`, then
/// `sodiumoxide::crypto::sign::sign`: the signed message for `message` under
/// a secret key of 64 bytes. The result depends on the message and the key
/// alone. The crate allocates 64 bytes more than the message has.
#[verifier::external_body]
fn sign_message(message: &[u8], secret_key: &[u8]) -> (signed: Vec<u8>)
    requires
        secret_key@.len() == SECRET_KEY_BYTES,
        message@.len() <= MAX_INPUT_BYTES,
    ensures
        signed@ == signed_message(message@, secret_key@),
{
    match sodiumoxide::crypto::sign::SecretKey::from_slice(secret_key) {
        Some(key) => sodiumoxide::crypto::sign::sign(message, &key),
        None => Vec::new(),
    }
}

/// The ports that the server listens on.
#[derive(Clone, Copy, Debug, PartialEq, Eq, Structural)]
pub struct ListenPorts {
    /// UDP and TCP, for registration and negotiation.
    pub main: i32,
    /// TCP, for the NAT probe: the port below the main one.
    pub nat: i32,
    /// TCP, for WebSocket clients: two above the main one.
    pub ws: i32,
}

#[derive(Clone, Copy, Debug, PartialEq, Eq, Structural)]
pub enum StartError {
    /// The port is below `MIN_PORT`, or so large that the WebSocket port
    /// above it does not exist.
    InvalidPort,
}

/// The resource whose failure ended a run of the loop.
#[derive(Clone, Copy, Debug, PartialEq, Eq, Structural)]
pub enum LoopFailure {
    UdpSocket,
    /// The listener for WebSocket clients.
    Listener3,
    /// The listener for the NAT probe.
    Listener2,
    /// The main listener.
    Listener,
}

/// What the server's key setting asks for.
pub enum ServerKey {
    /// The key that clients must present, and the secret key where the
    /// setting held one.
    Settled { key: String, sk: Option<Vec<u8>> },
    /// A key pair is to be read from the key files or made. Its public key
    /// becomes the key that clients must present where `publish` holds.
    Generate { publish: bool },
}

/// The secret key that a key setting holds: its base64 decoding, where that
/// has the length of a secret key.
pub open spec fn secret_in(setting: Seq<char>) -> Option<Seq<u8>> {
    if vstd::utf8::encode_utf8(setting).len() > MAX_INPUT_BYTES {
        None
    } else {
        match base64_decoded(setting) {
            Some(bytes) => if bytes.len() == SECRET_KEY_BYTES {
                Some(bytes)
            } else {
                None
            },
            None => None,
        }
    }
}

/// The key that a key setting stands for: the public half of the secret key
/// that it holds, in base64, or else the setting itself.
pub open spec fn public_in(setting: Seq<char>) -> Seq<char> {
    match secret_in(setting) {
        Some(bytes) => base64_encoded(bytes.subrange(32, 64)),
        None => setting,
    }
}

/// Whether a key asks for a generated key pair: the empty key, `-` or `_`.
pub open spec fn asks_for_generation(key: Seq<char>) -> bool {
    key.len() == 0 || key == "-"@ || key == "_"@
}

/// One item of the queue of outbound work.
pub enum Data {
    /// A message for a peer; sending it is the caller's.
    Msg,
    /// A new list of configured relay hosts.
    RelayServers0(Vec<String>),
    /// The relay hosts that a probe found reachable.
    RelayServers(Vec<String>),
}

/// What the loop has seen.
pub enum LoopEvent {
    /// The timer for the relay probe fired.
    RelayTimer,
    /// The timer for the sweep of the peers fired.
    PeerTimer,
    /// The timer for the statistics fired.
    StatsTimer,
    /// An item came off the queue.
    Queued(Data),
    /// A datagram came in and was handled; `handled` is whether that went
    /// well.
    Datagram { handled: bool },
    /// The UDP socket reported an error.
    SocketError,
    /// The UDP socket gave nothing.
    SocketEmpty,
    /// The listener for the NAT probe returned from accept.
    Accepted2 { ok: bool },
    /// The listener for WebSocket clients returned from accept.
    Accepted3 { ok: bool },
    /// The main listener returned from accept.
    Accepted { ok: bool },
}

/// What the loop does about an event.
#[derive(Clone, Copy, Debug, PartialEq, Eq, Structural)]
pub enum LoopAction {
    /// Nothing more; the loop goes on.
    Continue,
    /// Probe the configured relay hosts in the background.
    CheckRelayServers,
    /// Sweep the peers in the background.
    CheckOnlinePeers,
    /// Log the statistics in the background.
    LogStats,
    /// Send the queued message over the UDP socket.
    Send,
    /// Serve the accepted connection for the NAT probe.
    ServeNatProbe,
    /// Serve the accepted connection, framed as WebSocket or not.
    Serve { ws: bool },
    /// The run ends; the resource is made anew and the loop starts again.
    Fail(LoopFailure),
}

/// The periods of the loop's three timers.
#[derive(Clone, Copy, Debug, PartialEq, Eq, Structural)]
pub struct Timers {
    /// Milliseconds between two probes of the relay hosts.
    pub check_relay_ms: u64,
    /// Seconds between two sweeps of the peers.
    pub check_peers_secs: u64,
    /// Seconds between two reports of the statistics.
    pub stats_secs: u64,
}

/// What a registration of a public key asks for.
#[derive(Clone, Copy, Debug, PartialEq, Eq, Structural)]
pub enum PkRoute {
    /// The peer registers under its id.
    Register,
    /// The peer moves from its old id to a new one.
    Rename,
}

/// How two peers are brought together.
pub enum PunchHole {
    /// The peers are not brought together; the request is answered with
    /// this result.
    Reply(RegisterPkResult),
    /// Both peers are in the local network: they connect directly, each told
    /// the other's address.
    Direct { peer_addr: SocketAddress },
    /// Each is told the other's address and this relay; an empty relay means
    /// that none is healthy.
    Relayed { peer_addr: SocketAddress, relay_server: String },
}

pub struct Inner {
    pub serial: i32,
    pub version: String,
    pub software_url: String,
    pub mask: Option<LanMask>,
    pub local_ip: String,
    /// The secret signing key, 64 bytes, where the server has one.
    pub sk: Option<Vec<u8>>,
}

/// What the server is configured with, as the caller has read it.
pub struct Settings {
    pub software_url: String,
    pub version: String,
    /// The local network in CIDR notation; any other text means none.
    pub mask: String,
    /// The server's own address in the local network.
    pub local_ip: String,
    pub rendezvous_servers: Vec<String>,
    pub relay_servers: Vec<String>,
    /// `Y`, in either case, sends every connection through a relay.
    pub always_use_relay: String,
}

pub struct RendezvousServer {
    pub pm: PeerMap,
    pub relay_servers: RelayServers,
    pub rendezvous_servers: Vec<String>,
    pub inner: Inner,
    pub ports: ListenPorts,
    /// The key that clients must present.
    pub key: String,
    pub always_use_relay: bool,
}

/// The ports for a main port, where the main port is one.
pub open spec fn ports_for(port: i32) -> Result<ListenPorts, StartError> {
    if port < MIN_PORT || port > i32::MAX - 2 {
        Err(StartError::InvalidPort)
    } else {
        Ok(ListenPorts { main: port, nat: (port - 1) as i32, ws: (port + 2) as i32 })
    }
}

impl LoopFailure {
    /// The port on which the failed resource is made anew.
    pub fn port(self, ports: ListenPorts) -> (p: i32)
        ensures
            p == match self {
                LoopFailure::UdpSocket => ports.main,
                LoopFailure::Listener => ports.main,
                LoopFailure::Listener2 => ports.nat,
                LoopFailure::Listener3 => ports.ws,
            },
    {
        match self {
            LoopFailure::UdpSocket => ports.main,
            LoopFailure::Listener => ports.main,
            LoopFailure::Listener2 => ports.nat,
            LoopFailure::Listener3 => ports.ws,
        }
    }
}

impl ServerKey {
    /// What a key asks for, `sk` being the secret key that came with it: a
    /// key pair where the key is empty, `-` or `_`, and the pair's public key
    /// in its place unless the key is empty; otherwise the key and `sk` as
    /// they are.
    pub fn plan(key: String, sk: Option<Vec<u8>>) -> (r: ServerKey)
        ensures
            match r {
                ServerKey::Settled { key: settled, sk: secret } => !asks_for_generation(key@)
                    && settled == key && secret == sk,
                ServerKey::Generate { publish } => asks_for_generation(key@) && publish == (
                key@.len() > 0),
            },
    {
        if key.as_str().is_empty() || str_eq(key.as_str(), "-") || str_eq(key.as_str(), "_") {
            ServerKey::Generate { publish: !key.as_str().is_empty() }
        } else {
            ServerKey::Settled { key, sk }
        }
    }

    /// The key that clients must present and the secret key, once a key pair
    /// was read or made where one was asked for. `generated_key` and
    /// `generated_sk` are that pair; a setting that asked for none keeps its
    /// own.
    pub fn resolve(self, generated_key: String, generated_sk: Option<Vec<u8>>) -> (r: (
        String,
        Option<Vec<u8>>,
    ))
        ensures
            match self {
                ServerKey::Settled { key, sk } => r.0 == key && r.1 == sk,
                ServerKey::Generate { publish } => r.1 == generated_sk && r.0@ == if publish {
                    generated_key@
                } else {
                    Seq::<char>::empty()
                },
            },
    {
        match self {
            ServerKey::Settled { key, sk } => (key, sk),
            ServerKey::Generate { publish } => if publish {
                (generated_key, generated_sk)
            } else {
                (String::new(), generated_sk)
            },
        }
    }
}

impl RendezvousServer {
    /// The ports that go with the main port `port`.
    pub fn listen_ports(port: i32) -> (r: Result<ListenPorts, StartError>)
        ensures
            r == ports_for(port),
    {
        if port < MIN_PORT || port > i32::MAX - 2 {
            Err(StartError::InvalidPort)
        } else {
            Ok(ListenPorts { main: port, nat: port - 1, ws: port + 2 })
        }
    }

    /// The periods of the loop's timers; `heartbeat_interval` is the
    /// configured number of seconds between two sweeps of the peers.
    pub fn timers(heartbeat_interval: Option<&str>) -> (t: Timers)
        ensures
            t == (Timers {
                check_relay_ms: CHECK_RELAY_TIMEOUT,
                check_peers_secs: crate::peer::setting_or(
                    crate::peer::setting_text(heartbeat_interval),
                    HEARTBEAT_INTERVAL_DEFAULT,
                ),
                stats_secs: STATS_INTERVAL_SECS,
            }),
    {
        Timers {
            check_relay_ms: CHECK_RELAY_TIMEOUT,
            check_peers_secs: crate::peer::read_setting(
                heartbeat_interval,
                HEARTBEAT_INTERVAL_DEFAULT,
            ),
            stats_secs: STATS_INTERVAL_SECS,
        }
    }

    /// What a registration of a public key asks for: a rename where it names
    /// an old id, a registration where it names none.
    pub fn register_pk_route(old_id: &str) -> (route: PkRoute)
        ensures
            route == if old_id@.len() == 0 {
                PkRoute::Register
            } else {
                PkRoute::Rename
            },
    {
        if old_id.is_empty() {
            PkRoute::Register
        } else {
            PkRoute::Rename
        }
    }

    /// Reads the server's key setting. A setting that is the base64 text of a
    /// secret key gives that key, and the base64 text of its public half as
    /// the key that clients must present. Any other setting is itself that
    /// key. Where that key is empty, `-` or `_`, a key pair is asked for, and
    /// its public key is to be presented unless the key is empty.
    pub fn get_server_sk(key: &str) -> (r: ServerKey)
        ensures
            match r {
                ServerKey::Settled { key: public, sk } => {
                    &&& !asks_for_generation(public_in(key@))
                    &&& public@ == public_in(key@)
                    &&& match sk {
                        Some(bytes) => secret_in(key@) == Some(bytes@),
                        None => secret_in(key@) is None,
                    }
                },
                ServerKey::Generate { publish } => asks_for_generation(public_in(key@)) && publish
                    == (public_in(key@).len() > 0),
            },
    {
        let decoded = if key.as_bytes().len() <= MAX_INPUT_BYTES {
            base64_decode(key)
        } else {
            None
        };
        match Self::secret_key(decoded) {
            Some(sk) => {
                let half = Self::public_half(&sk);
                ServerKey::plan(base64_encode(half.as_slice()), Some(sk))
            },
            None => ServerKey::plan(key.to_owned(), None),
        }
    }

    /// The secret key among the bytes that a key setting decodes to: the
    /// bytes themselves where they are as many as a secret key has.
    pub fn secret_key(decoded: Option<Vec<u8>>) -> (r: Option<Vec<u8>>)
        ensures
            r == match decoded {
                Some(bytes) => if bytes@.len() == SECRET_KEY_BYTES {
                    Some(bytes)
                } else {
                    None
                },
                None => None,
            },
    {
        match decoded {
            Some(bytes) => if bytes.len() == SECRET_KEY_BYTES {
                Some(bytes)
            } else {
                None
            },
            None => None,
        }
    }

    /// The public key in a secret key: its second half.
    pub fn public_half(sk: &Vec<u8>) -> (half: Vec<u8>)
        requires
            sk@.len() == SECRET_KEY_BYTES,
        ensures
            half@ == sk@.subrange(32, 64),
    {
        copy_range(sk.as_slice(), SECRET_KEY_BYTES / 2, SECRET_KEY_BYTES)
    }

    /// The server for the main port `port` with the key pair `key` and `sk`.
    ///
    /// The port must leave room for the two ports beside it. The local
    /// network is what the mask setting names, and the server's own address
    /// in it is kept only where there is such a network. The configured relay
    /// hosts are the healthy ones to begin with.
    pub fn start(port: i32, serial: i32, key: String, sk: Option<Vec<u8>>, settings: Settings) -> (r:
        Result<RendezvousServer, StartError>)
        ensures
            match r {
                Err(e) => ports_for(port) == Err::<ListenPorts, StartError>(e),
                Ok(rs) => {
                    &&& ports_for(port) == Ok::<ListenPorts, StartError>(rs.ports)
                    &&& rs.pm@.peers == Map::<Seq<char>, crate::peer::PeerView>::empty()
                    &&& rs.pm@.cooldown == Map::<Seq<char>, u64>::empty()
                    &&& texts(rs.relay_servers.configured@) == texts(settings.relay_servers@)
                    &&& texts(rs.relay_servers.healthy@) == texts(settings.relay_servers@)
                    &&& rs.relay_servers.rotation == 0
                    &&& rs.rendezvous_servers == settings.rendezvous_servers
                    &&& rs.key == key
                    &&& rs.always_use_relay == (uppercase_of(settings.always_use_relay@) == "Y"@)
                    &&& rs.inner.serial == serial
                    &&& rs.inner.version == settings.version
                    &&& rs.inner.software_url == settings.software_url
                    &&& rs.inner.sk == sk
                    &&& match rs.inner.mask {
                        Some(mask) => crate::net::parsed_network(settings.mask@) == Some(
                            (mask.address(), mask.prefix()),
                        ) && rs.inner.local_ip == settings.local_ip,
                        None => crate::net::parsed_network(settings.mask@) is None
                            && rs.inner.local_ip@ == Seq::<char>::empty(),
                    }
                },
            },
    {
        let ports = match Self::listen_ports(port) {
            Ok(ports) => ports,
            Err(e) => {
                return Err(e);
            },
        };
        let mask = LanMask::parse(settings.mask.as_str());
        let local_ip = if mask.is_none() {
            String::new()
        } else {
            settings.local_ip
        };
        let mut relay_servers = RelayServers::new();
        relay_servers.parse_relay_servers(settings.relay_servers);
        let always = str_eq(to_uppercase(settings.always_use_relay.as_str()).as_str(), "Y");
        Ok(
            RendezvousServer {
                pm: PeerMap::new(),
                relay_servers,
                rendezvous_servers: settings.rendezvous_servers,
                inner: Inner {
                    serial,
                    version: settings.version,
                    software_url: settings.software_url,
                    mask,
                    local_ip,
                    sk,
                },
                ports,
                key,
                always_use_relay: always,
            },
        )
    }

    /// Whether a client that presents `licence_key` is served: every client
    /// where the server has no key, and else the clients with the same key.
    pub fn allows(&self, licence_key: &str) -> (r: bool)
        ensures
            r == (self.key@.len() == 0 || self.key@ == licence_key@),
    {
        self.key.as_str().is_empty() || str_eq(self.key.as_str(), licence_key)
    }

    /// Whether `addr` lies in the local network. Without such a network no
    /// address does.
    pub open spec fn lan(&self, addr: SocketAddress) -> bool {
        match self.inner.mask {
            Some(mask) => mask.holds(addr.ip),
            None => false,
        }
    }

    pub fn is_lan(&self, addr: SocketAddress) -> (r: bool)
        ensures
            r == self.lan(addr),
    {
        match &self.inner.mask {
            Some(mask) => mask.contains(addr.ip),
            None => false,
        }
    }

    /// Takes `hosts` as the configured relay hosts.
    pub fn parse_relay_servers(&mut self, hosts: Vec<String>)
        ensures
            texts(final(self).relay_servers.configured@) == texts(hosts@),
            texts(final(self).relay_servers.healthy@) == texts(hosts@),
            final(self).relay_servers.rotation == old(self).relay_servers.rotation,
            final(self).pm == old(self).pm,
            final(self).inner == old(self).inner,
            final(self).ports == old(self).ports,
    {
        self.relay_servers.parse_relay_servers(hosts);
    }

    /// The relay for the next connection: see `RelayServers::get_relay_server`.
    pub fn get_relay_server(&mut self) -> (host: String)
        ensures
            texts(final(self).relay_servers.healthy@) == texts(old(self).relay_servers.healthy@),
            texts(final(self).relay_servers.configured@) == texts(
                old(self).relay_servers.configured@,
            ),
            old(self).relay_servers.healthy@.len() == 0 ==> host@ == Seq::<char>::empty()
                && final(self).relay_servers.rotation == old(self).relay_servers.rotation,
            old(self).relay_servers.healthy@.len() == 1 ==> host@ == old(
                self,
            ).relay_servers.healthy@[0]@ && final(self).relay_servers.rotation == old(
                self,
            ).relay_servers.rotation,
            old(self).relay_servers.healthy@.len() > 1 ==> host@ == old(
                self,
            ).relay_servers.healthy@[rotated(
                old(self).relay_servers.rotation,
                old(self).relay_servers.healthy@.len(),
            )]@ && final(self).relay_servers.rotation == next_rotation(
                old(self).relay_servers.rotation,
            ),
            final(self).pm == old(self).pm,
            final(self).inner == old(self).inner,
            final(self).ports == old(self).ports,
    {
        self.relay_servers.get_relay_server()
    }

    /// What the loop does about `event`.
    ///
    /// The relay hosts are probed only where more than one is configured. A
    /// list of reachable hosts from the queue replaces the healthy ones. A
    /// failure of the UDP socket, of the handling of a datagram, or of an
    /// accept ends the run and names the resource; a socket that gave nothing
    /// does not.
    pub fn io_loop(&mut self, event: LoopEvent) -> (action: LoopAction)
        ensures
            final(self).pm == old(self).pm,
            final(self).inner == old(self).inner,
            final(self).ports == old(self).ports,
            final(self).relay_servers.rotation == old(self).relay_servers.rotation,
            match event {
                LoopEvent::Queued(Data::RelayServers0(hosts)) => texts(
                    final(self).relay_servers.configured@,
                ) == texts(hosts@) && texts(final(self).relay_servers.healthy@) == texts(hosts@),
                LoopEvent::Queued(Data::RelayServers(hosts)) => texts(
                    final(self).relay_servers.configured@,
                ) == texts(old(self).relay_servers.configured@) && texts(
                    final(self).relay_servers.healthy@,
                ) == texts(hosts@),
                _ => texts(final(self).relay_servers.configured@) == texts(
                    old(self).relay_servers.configured@,
                ) && texts(final(self).relay_servers.healthy@) == texts(
                    old(self).relay_servers.healthy@,
                ),
            },
            action == match event {
                LoopEvent::RelayTimer => if old(self).relay_servers.configured@.len() > 1 {
                    LoopAction::CheckRelayServers
                } else {
                    LoopAction::Continue
                },
                LoopEvent::PeerTimer => LoopAction::CheckOnlinePeers,
                LoopEvent::StatsTimer => LoopAction::LogStats,
                LoopEvent::Queued(Data::Msg) => LoopAction::Send,
                LoopEvent::Queued(_) => LoopAction::Continue,
                LoopEvent::Datagram { handled } => if handled {
                    LoopAction::Continue
                } else {
                    LoopAction::Fail(LoopFailure::UdpSocket)
                },
                LoopEvent::SocketError => LoopAction::Fail(LoopFailure::UdpSocket),
                LoopEvent::SocketEmpty => LoopAction::Continue,
                LoopEvent::Accepted2 { ok } => if ok {
                    LoopAction::ServeNatProbe
                } else {
                    LoopAction::Fail(LoopFailure::Listener2)
                },
                LoopEvent::Accepted3 { ok } => if ok {
                    LoopAction::Serve { ws: true }
                } else {
                    LoopAction::Fail(LoopFailure::Listener3)
                },
                LoopEvent::Accepted { ok } => if ok {
                    LoopAction::Serve { ws: false }
                } else {
                    LoopAction::Fail(LoopFailure::Listener)
                },
            },
    {
        match event {
            LoopEvent::RelayTimer => if self.relay_servers.needs_check() {
                LoopAction::CheckRelayServers
            } else {
                LoopAction::Continue
            },
            LoopEvent::PeerTimer => LoopAction::CheckOnlinePeers,
            LoopEvent::StatsTimer => LoopAction::LogStats,
            LoopEvent::Queued(data) => match data {
                Data::Msg => LoopAction::Send,
                Data::RelayServers0(hosts) => {
                    self.relay_servers.parse_relay_servers(hosts);
                    LoopAction::Continue
                },
                Data::RelayServers(hosts) => {
                    self.relay_servers.healthy = hosts;
                    LoopAction::Continue
                },
            },
            LoopEvent::Datagram { handled } => if handled {
                LoopAction::Continue
            } else {
                LoopAction::Fail(LoopFailure::UdpSocket)
            },
            LoopEvent::SocketError => LoopAction::Fail(LoopFailure::UdpSocket),
            LoopEvent::SocketEmpty => LoopAction::Continue,
            LoopEvent::Accepted2 { ok } => if ok {
                LoopAction::ServeNatProbe
            } else {
                LoopAction::Fail(LoopFailure::Listener2)
            },
            LoopEvent::Accepted3 { ok } => if ok {
                LoopAction::Serve { ws: true }
            } else {
                LoopAction::Fail(LoopFailure::Listener3)
            },
            LoopEvent::Accepted { ok } => if ok {
                LoopAction::Serve { ws: false }
            } else {
                LoopAction::Fail(LoopFailure::Listener)
            },
        }
    }

    /// Brings a peer at `requester` together with the peer `target_id`.
    ///
    /// A target that the registry does not hold gives `NOT_EXIST`. Two peers in
    /// the local network connect directly, unless every connection is to be
    /// relayed. Any others are sent to the next relay in turn.
    pub fn punch_hole(&mut self, requester: SocketAddress, target_id: &str) -> (r: PunchHole)
        ensures
            final(self).pm == old(self).pm,
            final(self).inner == old(self).inner,
            final(self).ports == old(self).ports,
            texts(final(self).relay_servers.healthy@) == texts(old(self).relay_servers.healthy@),
            texts(final(self).relay_servers.configured@) == texts(
                old(self).relay_servers.configured@,
            ),
            match r {
                PunchHole::Reply(result) => {
                    &&& result == RegisterPkResult::NOT_EXIST
                    &&& !old(self).pm@.holds(target_id@)
                    &&& final(self).relay_servers.rotation == old(self).relay_servers.rotation
                },
                PunchHole::Direct { peer_addr } => {
                    &&& old(self).pm@.holds(target_id@)
                    &&& peer_addr == old(self).pm@.peers[target_id@].socket_addr
                    &&& !old(self).always_use_relay
                    &&& old(self).lan(requester)
                    &&& old(self).lan(peer_addr)
                    &&& final(self).relay_servers.rotation == old(self).relay_servers.rotation
                },
                PunchHole::Relayed { peer_addr, relay_server } => {
                    let healthy = old(self).relay_servers.healthy@;
                    &&& old(self).pm@.holds(target_id@)
                    &&& peer_addr == old(self).pm@.peers[target_id@].socket_addr
                    &&& old(self).always_use_relay || !old(self).lan(requester) || !old(self).lan(
                        peer_addr,
                    )
                    &&& healthy.len() == 0 ==> relay_server@ == Seq::<char>::empty()
                    &&& healthy.len() == 1 ==> relay_server@ == healthy[0]@
                    &&& healthy.len() > 1 ==> relay_server@ == healthy[rotated(
                        old(self).relay_servers.rotation,
                        healthy.len(),
                    )]@
                    &&& final(self).relay_servers.rotation == if healthy.len() > 1 {
                        next_rotation(old(self).relay_servers.rotation)
                    } else {
                        old(self).relay_servers.rotation
                    }
                },
            },
    {
        let peer_addr = match self.pm.get_in_memory(target_id) {
            Some(peer) => peer.socket_addr,
            None => {
                return PunchHole::Reply(RegisterPkResult::NOT_EXIST);
            },
        };
        if !self.always_use_relay && self.is_lan(requester) && self.is_lan(peer_addr) {
            return PunchHole::Direct { peer_addr };
        }
        let relay_server = self.relay_servers.get_relay_server();
        PunchHole::Relayed { peer_addr, relay_server }
    }

    /// Whether the server can sign `payload`: it has a secret key of 64
    /// bytes, and the payload is not longer than `MAX_INPUT_BYTES`.
    pub open spec fn can_sign(&self, payload: Seq<u8>) -> bool {
        self.inner.sk matches Some(sk) && sk@.len() == SECRET_KEY_BYTES && payload.len()
            <= MAX_INPUT_BYTES
    }

    /// Signs `payload` with the server's secret key; nothing where the server
    /// cannot sign it.
    pub fn sign(&self, payload: &[u8]) -> (r: Option<Vec<u8>>)
        ensures
            match r {
                Some(signed) => self.can_sign(payload@) && signed@ == signed_message(
                    payload@,
                    self.inner.sk->0@,
                ),
                None => !self.can_sign(payload@),
            },
    {
        match &self.inner.sk {
            Some(sk) => if sk.len() == SECRET_KEY_BYTES && payload.len() <= MAX_INPUT_BYTES {
                Some(sign_message(payload, sk.as_slice()))
            } else {
                None
            },
            None => None,
        }
    }
}

} // verus!
