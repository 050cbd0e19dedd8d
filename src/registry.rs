//! The command façade over the watch store, with its fixed replies.
use vstd::prelude::*;
use crate::store::{
    WatchStore, StoreView, StorageError, created, deleted, cleared, listed, views, links_of,
    link_views, create_record, delete_record, clear_records, get_all_records,
};
use crate::url::{normalized, normalize_url, lemma_normalized_idempotent};
use crate::text::{int_text, push_int};
use crate::watch::{Link, LinkView, Status, Watch, parse_status, status_named, trimmed, to_link};

verus! {

/// A command of a user, already split into its arguments.
pub enum Command {
    /// Show the supported commands.
    Help,
    /// Watch `url` for the status named by `status`.
    Watch { status: String, url: String },
    /// Stop watching a URL.
    Unwatch(String),
    /// List the user's watches.
    List,
    /// Stop watching every URL of the user.
    Clear,
}

/// The mathematical value of a command.
pub enum CommandView {
    Help,
    Watch { status: Seq<char>, url: Seq<char> },
    Unwatch(Seq<char>),
    List,
    Clear,
}

impl View for Command {
    type V = CommandView;

    open spec fn view(&self) -> CommandView {
        match self {
            Command::Help => CommandView::Help,
            Command::Watch { status, url } => CommandView::Watch { status: status@, url: url@ },
            Command::Unwatch(u) => CommandView::Unwatch(u@),
            Command::List => CommandView::List,
            Command::Clear => CommandView::Clear,
        }
    }
}

/// The list of supported commands.
pub open spec fn help_words() -> Seq<char> {
    "These commands are supported:\n\n/help — display this text.\n/watch — Allow me to alert you when a website is down (or up!).\n/unwatch — Stop watching a webpage.\n/list — List all webpages that I'm watching for you.\n/clear — Stop watching any webpages that you've asked me to watch for you."@
}

/// The reply to a watch that was stored.
pub open spec fn added_words() -> Seq<char> {
    "Successfully added your link."@
}

/// The reply to a watch whose status is neither `up` nor `down`.
pub open spec fn rejected_words() -> Seq<char> {
    "You need to tell me if you want to watch for up or down or not!"@
}

/// The reply to a watch that the store could not take.
pub open spec fn failed_words() -> Seq<char> {
    "Had an issue adding your submission :("@
}

/// The reply to an unwatch.
pub open spec fn unwatched_words() -> Seq<char> {
    "Successfully unwatched."@
}

/// The reply to a clear.
pub open spec fn cleared_words() -> Seq<char> {
    "Successfully stopped watching all of your links."@
}

/// The heading of a listing.
pub open spec fn listing_head() -> Seq<char> {
    "Here's the URLs you're currently watching: \n"@
}

/// One line of a listing: `ID <id>: <url> - checking for <status>`.
pub open spec fn link_line(l: LinkView) -> Seq<char> {
    "ID "@ + int_text(l.id as int) + ": "@ + l.url + " - checking for "@ + l.status
}

/// The lines of the links, joined by newlines.
pub open spec fn joined_lines(s: Seq<LinkView>) -> Seq<char>
    decreases s.len(),
{
    if s.len() == 0 {
        Seq::empty()
    } else if s.len() == 1 {
        link_line(s[0])
    } else {
        joined_lines(s.drop_last()) + "\n"@ + link_line(s.last())
    }
}

/// The reply listing the links.
pub open spec fn listing_words(s: Seq<LinkView>) -> Seq<char> {
    listing_head() + joined_lines(s)
}

/// The text of the supported commands.
pub fn help_text() -> (r: String)
    ensures
        r@ == help_words(),
{
    String::from_str(
        "These commands are supported:\n\n/help — display this text.\n/watch — Allow me to alert you when a website is down (or up!).\n/unwatch — Stop watching a webpage.\n/list — List all webpages that I'm watching for you.\n/clear — Stop watching any webpages that you've asked me to watch for you.",
    )
}

/// Renders one link as a listing line.
pub fn format_link(l: &Link) -> (r: String)
    ensures
        r@ == link_line(l@),
{
    let mut r = String::from_str("ID ");
    push_int(&mut r, l.id as i64);
    r.append(": ");
    r.append(l.url.as_str());
    r.append(" - checking for ");
    r.append(l.status.as_str());
    r
}

/// Renders the reply listing `links`, one line each, in their order.
pub fn format_listing(links: &Vec<Link>) -> (r: String)
    ensures
        r@ == listing_words(link_views(links@)),
{
    let ghost lv = link_views(links@);
    let mut body = String::new();
    let mut i: usize = 0;
    while i < links.len()
        invariant
            i <= links.len(),
            lv == link_views(links@),
            body@ == joined_lines(lv.subrange(0, i as int)),
        decreases links.len() - i,
    {
        let line = format_link(&links[i]);
        if i > 0 {
            body.append("\n");
        }
        body.append(line.as_str());
        proof {
            assert(lv.subrange(0, i + 1).drop_last() =~= lv.subrange(0, i as int));
            if i == 0 {
                assert(lv.subrange(0, 0) =~= Seq::<LinkView>::empty());
            }
        }
        i = i + 1;
    }
    assert(lv.subrange(0, links.len() as int) =~= lv);
    let mut r = String::from_str("Here's the URLs you're currently watching: \n");
    r.append(body.as_str());
    r
}

/// The links that show the watches, in the same order.
pub fn to_links(ws: &Vec<Watch>) -> (r: Vec<Link>)
    ensures
        link_views(r@) == links_of(views(ws@)),
{
    let mut out: Vec<Link> = Vec::new();
    let mut i: usize = 0;
    while i < ws.len()
        invariant
            i <= ws.len(),
            link_views(out@) == links_of(views(ws@)).subrange(0, i as int),
        decreases ws.len() - i,
    {
        let l = to_link(&ws[i]);
        proof {
            assert(link_views(out@.push(l)) =~= link_views(out@).push(l@));
            assert(links_of(views(ws@)).subrange(0, i + 1) =~= links_of(views(ws@)).subrange(
                0,
                i as int,
            ).push(l@));
        }
        out.push(l);
        i = i + 1;
    }
    assert(links_of(views(ws@)).subrange(0, ws.len() as int) =~= links_of(views(ws@)));
    out
}

/// The store work a command asks for, with everything it needs; or, for a
/// command that needs no store work, its reply.
pub enum Step {
    Reply(String),
    Insert { owner: i64, url: String, status: Status },
    Delete { owner: i64, url: String },
    List { owner: i64 },
    Clear { owner: i64 },
}

/// The mathematical value of a step.
pub enum StepView {
    Reply(Seq<char>),
    Insert { owner: i64, url: Seq<char>, status: Status },
    Delete { owner: i64, url: Seq<char> },
    List { owner: i64 },
    Clear { owner: i64 },
}

impl View for Step {
    type V = StepView;

    open spec fn view(&self) -> StepView {
        match self {
            Step::Reply(t) => StepView::Reply(t@),
            Step::Insert { owner, url, status } => StepView::Insert {
                owner: *owner,
                url: url@,
                status: *status,
            },
            Step::Delete { owner, url } => StepView::Delete { owner: *owner, url: url@ },
            Step::List { owner } => StepView::List { owner: *owner },
            Step::Clear { owner } => StepView::Clear { owner: *owner },
        }
    }
}

/// The step for a command of `owner`. A watch is inserted only when its
/// status, once trimmed, is exactly `up` or `down`; URLs are normalized.
pub open spec fn planned(owner: i64, c: CommandView) -> StepView {
    match c {
        CommandView::Help => StepView::Reply(help_words()),
        CommandView::Watch { status, url } => match status_named(trimmed(status)) {
            None => StepView::Reply(rejected_words()),
            Some(st) => StepView::Insert { owner, url: normalized(url), status: st },
        },
        CommandView::Unwatch(url) => StepView::Delete { owner, url: normalized(url) },
        CommandView::List => StepView::List { owner },
        CommandView::Clear => StepView::Clear { owner },
    }
}

/// The view of what the store work of a step gave: the links it listed, or
/// the store's error.
pub open spec fn outcome_view(r: Result<Vec<Link>, StorageError>) -> Result<
    Seq<LinkView>,
    StorageError,
> {
    match r {
        Ok(ls) => Ok(link_views(ls@)),
        Err(e) => Err(e),
    }
}

/// The reply once the store work of a step is done.
pub open spec fn finished(st: StepView, r: Result<Seq<LinkView>, StorageError>) -> Seq<char> {
    match st {
        StepView::Reply(t) => t,
        StepView::Insert { .. } => if r is Ok {
            added_words()
        } else {
            failed_words()
        },
        StepView::Delete { .. } => if r is Ok {
            unwatched_words()
        } else {
            unwatch_failed_words()
        },
        StepView::List { .. } => match r {
            Ok(ls) => listing_words(ls),
            Err(_) => list_failed_words(),
        },
        StepView::Clear { .. } => if r is Ok {
            cleared_words()
        } else {
            clear_failed_words()
        },
    }
}

/// The reply to an unwatch that the store could not carry out.
pub open spec fn unwatch_failed_words() -> Seq<char> {
    "Had an issue unwatching that link :("@
}

/// The reply to a list that the store could not carry out.
pub open spec fn list_failed_words() -> Seq<char> {
    "Had an issue getting any URLs :("@
}

/// The reply to a clear that the store could not carry out.
pub open spec fn clear_failed_words() -> Seq<char> {
    "Had an issue clearing your links :("@
}

/// Decides what a command of `owner` asks of the store.
pub fn plan_command(owner: i64, cmd: Command) -> (r: Step)
    ensures
        r@ == planned(owner, cmd@),
{
    match cmd {
        Command::Help => Step::Reply(help_text()),
        Command::Watch { status, url } => match parse_status(status.as_str()) {
            None => Step::Reply(
                String::from_str("You need to tell me if you want to watch for up or down or not!"),
            ),
            Some(st) => Step::Insert { owner, url: normalize_url(url.as_str()), status: st },
        },
        Command::Unwatch(url) => Step::Delete { owner, url: normalize_url(url.as_str()) },
        Command::List => Step::List { owner },
        Command::Clear => Step::Clear { owner },
    }
}

/// The reply to a step, given what its store work gave: for a listing,
/// the owner's links in the order to show.
pub fn finish_command(st: &Step, r: Result<Vec<Link>, StorageError>) -> (t: String)
    ensures
        t@ == finished(st@, outcome_view(r)),
{
    match st {
        Step::Reply(t) => t.clone(),
        Step::Insert { .. } => match r {
            Ok(_) => String::from_str("Successfully added your link."),
            Err(_) => String::from_str("Had an issue adding your submission :("),
        },
        Step::Delete { .. } => match r {
            Ok(_) => String::from_str("Successfully unwatched."),
            Err(_) => String::from_str("Had an issue unwatching that link :("),
        },
        Step::List { .. } => match r {
            Ok(ls) => format_listing(&ls),
            Err(_) => String::from_str("Had an issue getting any URLs :("),
        },
        Step::Clear { .. } => match r {
            Ok(_) => String::from_str("Successfully stopped watching all of your links."),
            Err(_) => String::from_str("Had an issue clearing your links :("),
        },
    }
}

/// The store after a step's work, and what the work gave.
pub open spec fn applied(v: StoreView, st: StepView) -> (StoreView, Result<
    Seq<LinkView>,
    StorageError,
>) {
    match st {
        StepView::Reply(_) => (v, Ok(Seq::empty())),
        StepView::Insert { owner, url, status } => if v.next_id < i32::MAX {
            (created(v, owner, url, status), Ok(Seq::empty()))
        } else {
            (v, Err(StorageError::IdSpaceExhausted))
        },
        StepView::Delete { owner, url } => (deleted(v, owner, url), Ok(Seq::empty())),
        StepView::List { owner } => (v, Ok(links_of(listed(v, owner)))),
        StepView::Clear { owner } => (cleared(v, owner), Ok(Seq::empty())),
    }
}

/// Carries out the store work of a step on an in-memory store.
pub fn apply_step(store: &mut WatchStore, st: &Step) -> (r: Result<Vec<Link>, StorageError>)
    requires
        old(store).wf(),
    ensures
        final(store).wf(),
        (final(store)@, outcome_view(r)) == applied(old(store)@, st@),
{
    let none: Vec<Link> = Vec::new();
    assert(link_views(none@) =~= Seq::<LinkView>::empty());
    match st {
        Step::Reply(_) => Ok(none),
        Step::Insert { owner, url, status } => match create_record(
            store,
            *status,
            url.as_str(),
            *owner,
        ) {
            Ok(_) => Ok(none),
            Err(e) => Err(e),
        },
        Step::Delete { owner, url } => {
            delete_record(store, url.as_str(), *owner);
            Ok(none)
        },
        Step::List { owner } => {
            let ws = get_all_records(store, *owner);
            Ok(to_links(&ws))
        },
        Step::Clear { owner } => {
            clear_records(store, *owner);
            Ok(none)
        },
    }
}

/// The store after a command of `owner`, and the reply to it.
pub open spec fn answered(v: StoreView, owner: i64, c: CommandView) -> (StoreView, Seq<char>) {
    match c {
        CommandView::Help => (v, help_words()),
        CommandView::Watch { status, url } => match status_named(trimmed(status)) {
            None => (v, rejected_words()),
            Some(st) => if v.next_id < i32::MAX {
                (created(v, owner, url, st), added_words())
            } else {
                (v, failed_words())
            },
        },
        CommandView::Unwatch(url) => (deleted(v, owner, url), unwatched_words()),
        CommandView::List => (v, listing_words(links_of(listed(v, owner)))),
        CommandView::Clear => (cleared(v, owner), cleared_words()),
    }
}

/// Carries out a command of `owner` on an in-memory store and returns the
/// reply.
pub fn answer(store: &mut WatchStore, owner: i64, cmd: Command) -> (r: String)
    requires
        old(store).wf(),
    ensures
        final(store).wf(),
        (final(store)@, r@) == answered(old(store)@, owner, cmd@),
{
    let ghost c = cmd@;
    let st = plan_command(owner, cmd);
    let out = apply_step(store, &st);
    proof {
        match c {
            CommandView::Watch { url, .. } => lemma_normalized_idempotent(url),
            CommandView::Unwatch(url) => lemma_normalized_idempotent(url),
            _ => {},
        }
    }
    finish_command(&st, out)
}

/// A watch command whose status, once trimmed, is neither `up` nor `down`
/// leaves the store unchanged and gets the corrective reply.
pub proof fn law_rejected_watch_keeps_store(
    v: StoreView,
    owner: i64,
    status: Seq<char>,
    url: Seq<char>,
)
    requires
        status_named(trimmed(status)) is None,
    ensures
        answered(v, owner, CommandView::Watch { status, url }) == (v, rejected_words()),
{
}

} // verus!
