//! The watch record and its desired status.
use vstd::prelude::*;

verus! {

/// The reachability state a watch asks to be alerted about.
#[derive(PartialEq, Eq, Structural, Clone, Copy, Debug)]
pub enum Status {
    Up,
    Down,
}

/// The text a status is stored and shown as.
pub open spec fn status_word(s: Status) -> Seq<char> {
    match s {
        Status::Up => "up"@,
        Status::Down => "down"@,
    }
}

/// The status named by an already trimmed word, if any: exactly `up` or
/// `down`, case-sensitive.
pub open spec fn status_named(w: Seq<char>) -> Option<Status> {
    if w == "up"@ {
        Some(Status::Up)
    } else if w == "down"@ {
        Some(Status::Down)
    } else {
        None
    }
}

/// What `str::trim` leaves of a string.
pub uninterp spec fn trimmed(s: Seq<char>) -> Seq<char>;

/// Relies on `str::trim`: leading and trailing white space removed, the
/// result depending on the characters alone.
#[verifier::external_body]
fn trim_str(s: &str) -> (r: &str)
    ensures
        r@ == trimmed(s@),
{
    s.trim()
}

/// Whether two strings hold the same characters.
pub fn same_text(a: &str, b: &str) -> (r: bool)
    ensures
        r == (a@ == b@),
{
    let n = a.unicode_len();
    if n != b.unicode_len() {
        return false;
    }
    let mut i: usize = 0;
    while i < n
        invariant
            n == a@.len() == b@.len(),
            i <= n,
            a@.subrange(0, i as int) == b@.subrange(0, i as int),
        decreases n - i,
    {
        if a.get_char(i) != b.get_char(i) {
            return false;
        }
        assert(a@.subrange(0, i + 1) =~= a@.subrange(0, i as int).push(a@[i as int]));
        assert(b@.subrange(0, i + 1) =~= b@.subrange(0, i as int).push(b@[i as int]));
        i = i + 1;
    }
    assert(a@ =~= a@.subrange(0, n as int));
    assert(b@ =~= b@.subrange(0, n as int));
    true
}

/// Reads a status argument: after trimming white space it must be exactly
/// `up` or `down`.
pub fn parse_status(s: &str) -> (r: Option<Status>)
    ensures
        r == status_named(trimmed(s@)),
{
    let t = trim_str(s);
    if same_text(t, "up") {
        Some(Status::Up)
    } else if same_text(t, "down") {
        Some(Status::Down)
    } else {
        None
    }
}

/// Reads a status word that was stored by this library, without trimming.
pub fn status_from_word(s: &str) -> (r: Option<Status>)
    ensures
        r == status_named(s@),
{
    if same_text(s, "up") {
        Some(Status::Up)
    } else if same_text(s, "down") {
        Some(Status::Down)
    } else {
        None
    }
}

/// The text of a status: `up` or `down`.
pub fn status_text(s: Status) -> (r: String)
    ensures
        r@ == status_word(s),
{
    match s {
        Status::Up => String::from_str("up"),
        Status::Down => String::from_str("down"),
    }
}

/// A stored watch: the owner is alerted when `url` is in state `status`.
#[derive(Clone, Debug)]
pub struct Watch {
    pub id: i32,
    pub owner: i64,
    pub url: String,
    pub status: Status,
}

/// The mathematical value of a watch.
pub struct WatchView {
    pub id: i32,
    pub owner: i64,
    pub url: Seq<char>,
    pub status: Status,
}

impl View for Watch {
    type V = WatchView;

    open spec fn view(&self) -> WatchView {
        WatchView { id: self.id, owner: self.owner, url: self.url@, status: self.status }
    }
}

/// A watch as shown to its owner.
#[derive(Clone, Debug)]
pub struct Link {
    pub id: i32,
    pub url: String,
    pub status: String,
}

/// The mathematical value of a link.
pub struct LinkView {
    pub id: i32,
    pub url: Seq<char>,
    pub status: Seq<char>,
}

impl View for Link {
    type V = LinkView;

    open spec fn view(&self) -> LinkView {
        LinkView { id: self.id, url: self.url@, status: self.status@ }
    }
}

/// The link that shows a watch.
pub open spec fn link_of(w: WatchView) -> LinkView {
    LinkView { id: w.id, url: w.url, status: status_word(w.status) }
}

/// Builds the link that shows `w`.
pub fn to_link(w: &Watch) -> (r: Link)
    ensures
        r@ == link_of(w@),
{
    Link { id: w.id, url: w.url.clone(), status: status_text(w.status) }
}

} // verus!
