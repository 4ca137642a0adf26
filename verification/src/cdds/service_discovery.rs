use vstd::prelude::*;
use vstd::string::*;

verus! {

/// The transport over which a service is offered.
#[derive(Clone, Copy, Debug, PartialEq, Eq, Structural)]
pub enum Transport {
    Udp,
    Tcp,
}

/// Where the service discovery topics live.
pub open spec fn discovery_prefix() -> Seq<char> {
    "/service_discovery/default/"@
}

/// A service name with each '.' turned into '/'.
pub open spec fn dots_to_slashes(s: Seq<char>) -> Seq<char> {
    s.map_values(|c: char| if c == '.' { '/' } else { c })
}

/// The service discovery topic of a service name.
pub open spec fn spec_topic_name(service_name: Seq<char>) -> Seq<char> {
    discovery_prefix() + dots_to_slashes(service_name)
}

/// Create the service discovery topic for a service name: the discovery
/// prefix followed by the name with each '.' replaced by '/'.
pub fn service_name_to_topic_name(service_name: &str) -> (r: String)
    ensures
        r@ == spec_topic_name(service_name@),
        r@.len() == 27 + service_name@.len(),
        r@.subrange(0, 27) == "/service_discovery/default/"@,
        forall|i: int|
            0 <= i < service_name@.len() ==> #[trigger] r@[27 + i] == if service_name@[i] == '.' {
                '/'
            } else {
                service_name@[i]
            },
{
    proof {
        lemma_topic_name_characters(service_name@);
    }
    let mut topic = String::from_str("/service_discovery/default/");
    let ghost prefix = topic@;
    let n = service_name.unicode_len();
    let mut i: usize = 0;
    while i < n
        invariant
            n == service_name@.len(),
            i <= n,
            prefix == discovery_prefix(),
            topic@ == prefix + dots_to_slashes(service_name@.take(i as int)),
        decreases n - i,
    {
        let c = service_name.get_char(i);
        let ghost before = topic@;
        if c == '.' {
            topic.append("/");
            proof {
                reveal_strlit("/");
            }
        } else {
            topic.append(service_name.substring_char(i, i + 1));
        }
        assert(dots_to_slashes(service_name@.take(i + 1)) =~= dots_to_slashes(
            service_name@.take(i as int),
        ).push(if c == '.' { '/' } else { c }));
        assert(topic@ =~= prefix + dots_to_slashes(service_name@.take(i + 1)));
        i = i + 1;
    }
    assert(service_name@.take(n as int) =~= service_name@);
    topic
}

/// A service discovery topic holds no '.', and it starts with the discovery
/// prefix followed by one character for each character of the service name.
pub proof fn lemma_topic_name_shape(service_name: Seq<char>)
    ensures
        !spec_topic_name(service_name).contains('.'),
        spec_topic_name(service_name).len() == discovery_prefix().len() + service_name.len(),
        spec_topic_name(service_name).subrange(0, discovery_prefix().len() as int)
            == discovery_prefix(),
{
    reveal_strlit("/service_discovery/default/");
    let t = spec_topic_name(service_name);
    let p = discovery_prefix();
    assert forall|i: int| 0 <= i < t.len() implies t[i] != '.' by {
        if i >= p.len() {
            assert(t[i] == dots_to_slashes(service_name)[i - p.len()]);
        }
    }
    assert(t.subrange(0, p.len() as int) =~= p);
}

/// The topic of a service is the 27 characters "/service_discovery/default/"
/// followed by the service name, character for character, except that each
/// '.' becomes '/'.
pub proof fn lemma_topic_name_characters(service_name: Seq<char>)
    ensures
        spec_topic_name(service_name).len() == 27 + service_name.len(),
        spec_topic_name(service_name).subrange(0, 27) == "/service_discovery/default/"@,
        forall|i: int|
            0 <= i < service_name.len() ==> #[trigger] spec_topic_name(service_name)[27 + i] == if service_name[i]
                == '.' {
                '/'
            } else {
                service_name[i]
            },
{
    reveal_strlit("/service_discovery/default/");
    let t = spec_topic_name(service_name);
    assert(t.subrange(0, 27) =~= "/service_discovery/default/"@);
    assert forall|i: int| 0 <= i < service_name.len() implies #[trigger] t[27 + i] == if service_name[i]
        == '.' {
        '/'
    } else {
        service_name[i]
    } by {
        assert(t[27 + i] == dots_to_slashes(service_name)[i]);
    }
}

/// The version and instance that identify an offered service.
#[derive(Clone, Copy, Debug, PartialEq, Eq, Structural)]
pub struct ServiceKey {
    pub major_version: u8,
    pub minor_version: u32,
    pub instance_id: u16,
}

/// Whether a list of transports offers TCP.
pub fn offers_tcp(transports: &Vec<Transport>) -> (r: bool)
    ensures
        r == transports@.contains(Transport::Tcp),
{
    let mut i: usize = 0;
    while i < transports.len()
        invariant
            i <= transports.len(),
            forall|j: int| 0 <= j < i ==> transports@[j] != Transport::Tcp,
        decreases transports.len() - i,
    {
        if transports[i] == Transport::Tcp {
            return true;
        }
        i = i + 1;
    }
    false
}

/// Whether a proxy that is not running yet starts on an announcement: the
/// announced service must be the wanted one, offered over TCP.
pub open spec fn spec_starts(is_running: bool, wanted: ServiceKey, offered: ServiceKey, tcp: bool) -> bool {
    !is_running && offered == wanted && tcp
}

/// A proxy starts exactly on an announcement of the wanted major version,
/// minor version and instance, offered over TCP, while it is not running yet.
pub proof fn lemma_start_needs_matching_service(
    is_running: bool,
    wanted: ServiceKey,
    offered: ServiceKey,
    tcp: bool,
)
    ensures
        spec_starts(is_running, wanted, offered, tcp) == (!is_running && offered.major_version
            == wanted.major_version && offered.minor_version == wanted.minor_version
            && offered.instance_id == wanted.instance_id && tcp),
{
}

/// Decides, announcement by announcement, when a proxy connects to the
/// service it is for.
pub struct ProxyLauncher {
    pub wanted: ServiceKey,
    pub is_running: bool,
}

impl ProxyLauncher {
    /// A launcher for the service of the given key, not connected yet.
    pub fn new(wanted: ServiceKey) -> (r: ProxyLauncher)
        ensures
            r == (ProxyLauncher { wanted, is_running: false }),
    {
        ProxyLauncher { wanted, is_running: false }
    }

    /// Handles one service announcement; returns whether the proxy is to
    /// connect to the announced service now.
    pub fn on_announcement(&mut self, offered: &ServiceKey, transports: &Vec<Transport>) -> (start: bool)
        ensures
            start == spec_starts(
                old(self).is_running,
                old(self).wanted,
                *offered,
                transports@.contains(Transport::Tcp),
            ),
            start == (!old(self).is_running && offered.major_version
                == old(self).wanted.major_version && offered.minor_version
                == old(self).wanted.minor_version && offered.instance_id
                == old(self).wanted.instance_id && transports@.contains(Transport::Tcp)),
            final(self).wanted == old(self).wanted,
            final(self).is_running == (old(self).is_running || start),
    {
        let tcp = offers_tcp(transports);
        let start = !self.is_running && offered.major_version == self.wanted.major_version
            && offered.instance_id == self.wanted.instance_id && offered.minor_version
            == self.wanted.minor_version && tcp;
        if start {
            self.is_running = true;
        }
        start
    }
}

/// How many times a launcher starts its proxy over a sequence of
/// announcements (each a service key and whether TCP is offered).
pub open spec fn spec_start_count(
    is_running: bool,
    wanted: ServiceKey,
    announcements: Seq<(ServiceKey, bool)>,
) -> nat
    decreases announcements.len(),
{
    if announcements.len() == 0 {
        0
    } else {
        let a = announcements[0];
        let start = spec_starts(is_running, wanted, a.0, a.1);
        (if start {
            1nat
        } else {
            0nat
        }) + spec_start_count(is_running || start, wanted, announcements.drop_first())
    }
}

/// A proxy connects at most once, however many announcements arrive, and
/// never once it is running.
pub proof fn lemma_proxy_starts_at_most_once(
    is_running: bool,
    wanted: ServiceKey,
    announcements: Seq<(ServiceKey, bool)>,
)
    ensures
        spec_start_count(is_running, wanted, announcements) <= 1,
        is_running ==> spec_start_count(is_running, wanted, announcements) == 0,
    decreases announcements.len(),
{
    if announcements.len() > 0 {
        let a = announcements[0];
        let start = spec_starts(is_running, wanted, a.0, a.1);
        lemma_proxy_starts_at_most_once(is_running || start, wanted, announcements.drop_first());
    }
}

} // verus!
