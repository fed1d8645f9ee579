use vstd::prelude::*;

verus! {

/// The version number that the game presents to other players.
pub const SERVER_VERSION: u32 = 0x00010001;

/// The chat and master server names of an online domain; none where the domain holds a
/// NUL character, which a C string cannot carry.
pub open spec fn spec_online_urls(domain: Seq<char>) -> Option<(Seq<char>, Seq<char>)> {
    if domain.contains('\0') {
        None
    } else {
        Some(("peerchat."@ + domain, "master."@ + domain))
    }
}

/// The chat and master server names of `domain`; see `spec_online_urls`.
pub fn online_urls(domain: &str) -> (r: Option<(String, String)>)
    ensures
        match r {
            Some((p, m)) => spec_online_urls(domain@) == Some((p@, m@)),
            None => spec_online_urls(domain@) is None,
        },
{
    let n = domain.unicode_len();
    let mut i: usize = 0;
    while i < n
        invariant
            n == domain@.len(),
            i <= n,
            forall|j: int| 0 <= j < i ==> domain@[j] != '\0',
        decreases n - i,
    {
        if domain.get_char(i) == '\0' {
            assert(domain@[i as int] == '\0');
            return None;
        }
        i = i + 1;
    }
    let mut peerchat = String::from_str("peerchat.");
    peerchat.append(domain);
    let mut master = String::from_str("master.");
    master.append(domain);
    Some((peerchat, master))
}

/// The network settings of the game.
pub struct NetContext {
    pub server_version: u32,
    pub peerchat_url: Option<String>,
    pub master_server_url: Option<String>,
}

impl NetContext {
    /// The settings for the online domain of the configuration.
    pub fn init(domain: &str) -> (r: Self)
        ensures
            r.server_version == SERVER_VERSION,
            match spec_online_urls(domain@) {
                Some((p, m)) => {
                    &&& r.peerchat_url matches Some(a) && a@ == p
                    &&& r.master_server_url matches Some(b) && b@ == m
                },
                None => r.peerchat_url is None && r.master_server_url is None,
            },
    {
        match online_urls(domain) {
            Some((p, m)) => NetContext {
                server_version: SERVER_VERSION,
                peerchat_url: Some(p),
                master_server_url: Some(m),
            },
            None => NetContext {
                server_version: SERVER_VERSION,
                peerchat_url: None,
                master_server_url: None,
            },
        }
    }

    pub fn get_server_version(&self) -> (r: u32)
        ensures
            r == self.server_version,
    {
        self.server_version
    }
}

} // verus!
