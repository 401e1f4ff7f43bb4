//! What a request tells of its sender: the device and address, and the
//! identity claimed in its headers.

use vstd::prelude::*;
use vstd::string::*;

verus! {

/// The device and address a request came from.
#[derive(Debug)]
pub struct DeviceInfo {
    pub device_string: String,
    pub ip_address: Option<String>,
}

/// The identity a request claims, as read from its headers.
#[derive(Debug)]
pub struct UserAuthInfo {
    pub user_id: Option<u32>,
    pub auth_token: Option<Vec<u8>>,
}

/// What the user agent tells of the device.
#[derive(Debug)]
pub struct DeviceParts {
    pub brand: Option<String>,
    pub name: Option<String>,
    pub model: Option<String>,
}

/// What the user agent tells of the operating system.
#[derive(Debug)]
pub struct OsParts {
    pub name: Option<String>,
    pub major: Option<String>,
    pub minor: Option<String>,
    pub patch: Option<String>,
    pub patch_minor: Option<String>,
}

/// What the user agent tells of the browser engine.
#[derive(Debug)]
pub struct EngineParts {
    pub name: Option<String>,
    pub major: Option<String>,
    pub minor: Option<String>,
    pub patch: Option<String>,
}

/// `prefix + v` when `v` is present, and the rest after it only then.
pub open spec fn then_part(v: Option<String>, prefix: Seq<char>, rest: Seq<char>) -> Seq<char> {
    match v {
        Some(x) => prefix + x@ + rest,
        None => seq![],
    }
}

/// The device: `brand ` then `name ` (or `model `).
pub open spec fn device_text(d: DeviceParts) -> Seq<char> {
    let brand = match d.brand {
        Some(b) => b@ + " "@,
        None => seq![],
    };
    let name = match d.name {
        Some(n) => n@ + " "@,
        None => match d.model {
            Some(m) => m@ + " "@,
            None => seq![],
        },
    };
    brand + name
}

/// The operating system: `(name major.minor.patch.patch_minor) `, each
/// version number only after the one before it.
pub open spec fn os_text(o: OsParts) -> Seq<char> {
    match o.name {
        Some(n) => "("@ + n@ + then_part(
            o.major,
            " "@,
            then_part(o.minor, "."@, then_part(o.patch, "."@, then_part(o.patch_minor, "."@, seq![]))),
        ) + ") "@,
        None => seq![],
    }
}

/// The engine: `name major.minor.patch`, each version number only after the
/// one before it.
pub open spec fn engine_text(e: EngineParts) -> Seq<char> {
    match e.name {
        Some(n) => n@ + then_part(e.major, " "@, then_part(e.minor, "."@, then_part(e.patch, "."@, seq![]))),
        None => seq![],
    }
}

/// The description of a device, or `Unknown` when the user agent tells nothing.
pub open spec fn device_description(d: DeviceParts, o: OsParts, e: EngineParts) -> Seq<char> {
    let t = device_text(d) + os_text(o) + engine_text(e);
    if t.len() == 0 {
        "Unknown"@
    } else {
        t
    }
}

/// `prefix + v + rest` when `v` is present.
fn add_then(v: &Option<String>, prefix: &str, rest: String) -> (r: String)
    ensures
        r@ == then_part(*v, prefix@, rest@),
{
    match v {
        Some(x) => String::from_str(prefix).concat(x.as_str()).concat(rest.as_str()),
        None => String::new(),
    }
}

fn device_part(device: &DeviceParts) -> (r: String)
    ensures
        r@ == device_text(*device),
{
    let brand = match &device.brand {
        Some(b) => b.clone().concat(" "),
        None => String::new(),
    };
    let name = match &device.name {
        Some(n) => n.clone().concat(" "),
        None => match &device.model {
            Some(m) => m.clone().concat(" "),
            None => String::new(),
        },
    };
    brand.concat(name.as_str())
}

fn os_part(os: &OsParts) -> (r: String)
    ensures
        r@ == os_text(*os),
{
    match &os.name {
        Some(name) => {
            let v = add_then(&os.patch_minor, ".", String::new());
            let v = add_then(&os.patch, ".", v);
            let v = add_then(&os.minor, ".", v);
            let v = add_then(&os.major, " ", v);
            String::from_str("(").concat(name.as_str()).concat(v.as_str()).concat(") ")
        },
        None => String::new(),
    }
}

fn engine_part(engine: &EngineParts) -> (r: String)
    ensures
        r@ == engine_text(*engine),
{
    match &engine.name {
        Some(name) => {
            let v = add_then(&engine.patch, ".", String::new());
            let v = add_then(&engine.minor, ".", v);
            let v = add_then(&engine.major, " ", v);
            name.clone().concat(v.as_str())
        },
        None => String::new(),
    }
}

/// A one-line description of a device from what its user agent tells.
pub fn device_str(device: &DeviceParts, os: &OsParts, engine: &EngineParts) -> (r: String)
    ensures
        r@ == device_description(*device, *os, *engine),
{
    let out = device_part(device).concat(os_part(os).as_str()).concat(engine_part(engine).as_str());
    if out.as_str().is_empty() {
        String::from_str("Unknown")
    } else {
        out
    }
}

/// The first position at or after `i` where `s` has `c`, or -1.
pub open spec fn index_from(s: Seq<char>, c: char, i: int) -> int
    decreases s.len() - i,
{
    if i < 0 || i >= s.len() {
        -1
    } else if s[i] == c {
        i
    } else {
        index_from(s, c, i + 1)
    }
}

/// How many times `c` occurs in `s` at or after `i`.
pub open spec fn count_from(s: Seq<char>, c: char, i: int) -> nat
    decreases s.len() - i,
{
    if i < 0 || i >= s.len() {
        0
    } else {
        (if s[i] == c {
            1nat
        } else {
            0nat
        }) + count_from(s, c, i + 1)
    }
}

/// The address without its port: `host:port` gives `host`, and an IPv6
/// `[address]:port` gives `address`; anything else stays as it is.
pub open spec fn host_of(ip: Seq<char>) -> Seq<char> {
    let colon = index_from(ip, ':', 0);
    if colon < 0 {
        ip
    } else if count_from(ip, ':', 0) > 1 {
        let close = index_from(ip, ']', 0);
        if ip[0] == '[' && close >= 0 {
            ip.subrange(1, close)
        } else {
            ip
        }
    } else {
        ip.subrange(0, colon)
    }
}

proof fn lemma_index_from(s: Seq<char>, c: char, i: int)
    requires
        0 <= i,
    ensures
        index_from(s, c, i) == -1 || (i <= index_from(s, c, i) < s.len() && s[index_from(s, c, i)] == c),
    decreases s.len() - i,
{
    if i < s.len() && s[i] != c {
        lemma_index_from(s, c, i + 1);
    }
}

fn find_char(s: &str, c: char) -> (r: Option<usize>)
    ensures
        match r {
            Some(i) => i as int == index_from(s@, c, 0) && i < s@.len(),
            None => index_from(s@, c, 0) == -1,
        },
{
    let n = s.unicode_len();
    let mut i: usize = 0;
    while i < n
        invariant
            n == s@.len(),
            i <= n,
            index_from(s@, c, 0) == index_from(s@, c, i as int),
        decreases n - i,
    {
        if s.get_char(i) == c {
            return Some(i);
        }
        i = i + 1;
    }
    None
}

fn count_char(s: &str, c: char) -> (r: usize)
    ensures
        r == count_from(s@, c, 0),
{
    let n = s.unicode_len();
    let mut i: usize = 0;
    let mut k: usize = 0;
    while i < n
        invariant
            n == s@.len(),
            i <= n,
            k <= i,
            count_from(s@, c, 0) == k + count_from(s@, c, i as int),
        decreases n - i,
    {
        if s.get_char(i) == c {
            k = k + 1;
        }
        i = i + 1;
    }
    k
}

/// The address without its port, as `host_of` reads it.
pub fn strip_port(ip: &str) -> (r: String)
    ensures
        r@ == host_of(ip@),
{
    match find_char(ip, ':') {
        None => String::from_str(ip),
        Some(colon) => {
            if count_char(ip, ':') > 1 {
                match find_char(ip, ']') {
                    Some(close) => {
                        proof {
                            lemma_index_from(ip@, ']', 0);
                        }
                        if ip.get_char(0) == '[' {
                            String::from_str(ip.substring_char(1, close))
                        } else {
                            String::from_str(ip)
                        }
                    },
                    None => String::from_str(ip),
                }
            } else {
                String::from_str(ip.substring_char(0, colon))
            }
        },
    }
}

impl DeviceInfo {
    /// What a request tells of its sender: the description of its device,
    /// and the address it came from (the peer's, else the forwarded one)
    /// without its port.
    pub fn from_request(
        remote: Option<String>,
        forwarded_for: Option<String>,
        device: &DeviceParts,
        os: &OsParts,
        engine: &EngineParts,
    ) -> (r: DeviceInfo)
        ensures
            r.device_string@ == device_description(*device, *os, *engine),
            r.ip_address is Some <==> (remote is Some || forwarded_for is Some),
            remote is Some ==> r.ip_address->0@ == host_of(remote->0@),
            remote is None && forwarded_for is Some ==> r.ip_address->0@ == host_of(forwarded_for->0@),
    {
        let ip = match remote {
            Some(ip) => Some(ip),
            None => forwarded_for,
        };
        let ip_address = match ip {
            Some(ip) => Some(strip_port(ip.as_str())),
            None => None,
        };
        DeviceInfo { device_string: device_str(device, os, engine), ip_address }
    }
}

}
