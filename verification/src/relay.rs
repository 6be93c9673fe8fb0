//! The relay servers: the configured hosts, those among them that were last
//! found reachable, and the rotation among these.

use vstd::prelude::*;
use vstd::string::*;

verus! {

/// The fields of a comma-separated list after its first `n` characters: the
/// fields that have ended, and the place where the open field begins. Empty
/// fields are left out.
pub open spec fn scan_fields(s: Seq<char>, n: int) -> (Seq<Seq<char>>, int)
    decreases n,
{
    if n <= 0 {
        (Seq::empty(), 0)
    } else {
        let (fields, start) = scan_fields(s, n - 1);
        if s[n - 1] == ',' {
            (
                if start < n - 1 {
                    fields.push(s.subrange(start, n - 1))
                } else {
                    fields
                },
                n,
            )
        } else {
            (fields, start)
        }
    }
}

/// The non-empty fields of a comma-separated list, in their order.
pub open spec fn fields_of(s: Seq<char>) -> Seq<Seq<char>> {
    let (fields, start) = scan_fields(s, s.len() as int);
    if start < s.len() {
        fields.push(s.subrange(start, s.len() as int))
    } else {
        fields
    }
}

/// The texts of a list of strings.
pub open spec fn texts(v: Seq<String>) -> Seq<Seq<char>> {
    Seq::new(v.len(), |i: int| v[i]@)
}

/// The place in a list of length `len` that the rotation counter `rotation`
/// points to.
pub open spec fn rotated(rotation: usize, len: nat) -> int {
    rotation as int % len as int
}

/// The counter after one more selection; it wraps at the end of its range.
pub open spec fn next_rotation(rotation: usize) -> usize {
    if rotation == usize::MAX {
        0
    } else {
        (rotation + 1) as usize
    }
}

/// The host names of a comma-separated list.
pub fn split_hosts(list: &str) -> (hosts: Vec<String>)
    ensures
        texts(hosts@) == fields_of(list@),
{
    let mut hosts: Vec<String> = Vec::new();
    let total: usize = list.unicode_len();
    let mut start: usize = 0;
    let mut n: usize = 0;
    for c in it: list.chars()
        invariant
            it.seq() == list@,
            total == list@.len(),
            n == it.index(),
            start <= n,
            (texts(hosts@), start as int) == scan_fields(list@, n as int),
    {
        if c == ',' {
            if start < n {
                let field = list.substring_char(start, n);
                let ghost before = hosts@;
                hosts.push(field.to_owned());
                assert(texts(hosts@) =~= texts(before).push(list@.subrange(start as int, n as int)));
            }
            start = n + 1;
        }
        n += 1;
    }
    if start < total {
        let field = list.substring_char(start, total);
        let ghost before = hosts@;
        hosts.push(field.to_owned());
        assert(texts(hosts@) =~= texts(before).push(list@.subrange(start as int, total as int)));
    }
    hosts
}

/// A fresh list with the same texts.
pub fn copy_hosts(hosts: &Vec<String>) -> (r: Vec<String>)
    ensures
        texts(r@) == texts(hosts@),
{
    let mut out: Vec<String> = Vec::new();
    let mut i: usize = 0;
    while i < hosts.len()
        invariant
            i <= hosts@.len(),
            out@.len() == i,
            forall|j: int| 0 <= j < i ==> (#[trigger] out@[j])@ == hosts@[j]@,
        decreases hosts@.len() - i,
    {
        out.push(hosts[i].clone());
        i += 1;
    }
    assert(texts(out@) =~= texts(hosts@));
    out
}

pub struct RelayServers {
    /// The hosts that were configured.
    pub configured: Vec<String>,
    /// The hosts that selections rotate among.
    pub healthy: Vec<String>,
    /// The number of selections among several hosts so far.
    pub rotation: usize,
}

impl RelayServers {
    pub fn new() -> (rs: RelayServers)
        ensures
            rs.configured@.len() == 0,
            rs.healthy@.len() == 0,
            rs.rotation == 0,
    {
        RelayServers { configured: Vec::new(), healthy: Vec::new(), rotation: 0 }
    }

    /// Takes `hosts` as the configured hosts, and as the healthy ones until a
    /// probe says otherwise.
    pub fn parse_relay_servers(&mut self, hosts: Vec<String>)
        ensures
            texts(final(self).configured@) == texts(hosts@),
            texts(final(self).healthy@) == texts(hosts@),
            final(self).rotation == old(self).rotation,
    {
        self.healthy = copy_hosts(&hosts);
        self.configured = hosts;
    }

    /// Whether the hosts are to be probed: with one host or none there is
    /// nothing to choose from.
    pub fn needs_check(&self) -> (r: bool)
        ensures
            r == (self.configured@.len() > 1),
    {
        self.configured.len() > 1
    }

    /// The address to probe for `host`: the host itself where it names a
    /// port, and else the host with `default_port`.
    pub fn probe_target(host: &str, default_port: &str) -> (target: String)
        ensures
            target@ == if host@.contains(':') {
                host@
            } else {
                host@ + seq![':'] + default_port@
            },
    {
        let mut has_port = false;
        for c in it: host.chars()
            invariant
                it.seq() == host@,
                has_port == exists|j: int| 0 <= j < it.index() && host@[j] == ':',
        {
            if c == ':' {
                has_port = true;
            }
        }
        if has_port {
            host.to_owned()
        } else {
            proof {
                reveal_strlit(":");
                assert(":"@ =~= seq![':']);
            }
            host.to_owned().concat(":").concat(default_port)
        }
    }

    /// Takes the outcome of a probe: the hosts that were reached become the
    /// healthy ones, unless none was reached; then the healthy ones stay.
    pub fn check_relay_servers(&mut self, reachable: Vec<String>)
        ensures
            texts(final(self).healthy@) == if reachable@.len() > 0 {
                texts(reachable@)
            } else {
                texts(old(self).healthy@)
            },
            texts(final(self).configured@) == texts(old(self).configured@),
            final(self).rotation == old(self).rotation,
    {
        if reachable.len() > 0 {
            self.healthy = reachable;
        }
    }

    /// The relay for the next connection: none where no host is healthy, the
    /// host where one is, and the next in turn where several are.
    pub fn get_relay_server(&mut self) -> (host: String)
        ensures
            texts(final(self).healthy@) == texts(old(self).healthy@),
            texts(final(self).configured@) == texts(old(self).configured@),
            old(self).healthy@.len() == 0 ==> host@ == Seq::<char>::empty() && final(self).rotation
                == old(self).rotation,
            old(self).healthy@.len() == 1 ==> host@ == old(self).healthy@[0]@ && final(self).rotation == old(self).rotation,
            old(self).healthy@.len() > 1 ==> host@ == old(self).healthy@[rotated(
                old(self).rotation,
                old(self).healthy@.len(),
            )]@ && final(self).rotation == next_rotation(old(self).rotation),
    {
        if self.healthy.len() == 0 {
            return String::new();
        } else if self.healthy.len() == 1 {
            return self.healthy[0].clone();
        }
        let i: usize = self.rotation % self.healthy.len();
        self.rotation = self.rotation.wrapping_add(1);
        self.healthy[i].clone()
    }
}

/// With two healthy hosts the selections alternate: the first and the third
/// of three selections in a row give the same host, the second the other.
/// From a fresh counter they give the first host, the second, the first.
pub proof fn lemma_two_relays_alternate(rotation: usize)
    ensures
        rotated(next_rotation(rotation), 2) != rotated(rotation, 2),
        rotated(next_rotation(next_rotation(rotation)), 2) == rotated(rotation, 2),
        rotated(0, 2) == 0,
        rotated(next_rotation(0), 2) == 1,
        rotated(next_rotation(next_rotation(0)), 2) == 0,
{
}

} // verus!
