//! Finding the running applications that may own a session: the instances of
//! a bundle, the application up a process's ancestry, or the supported
//! terminals. The platform answers one question at a time; the walk and the
//! choices are made here.
use vstd::prelude::*;

use crate::focus::{FocusHost, HostCall, HostLog};
use crate::origin::{bundle_view, opt_view, Origin};
use crate::platform::{
    ancestry_continues, application_query, has_session_hint, narrow_to_pid, narrowed,
    next_ancestor, opt_u32_seq, supported_terminals, AppQuery, RunningApp,
};

verus! {

/// One process looked at on the way up an ancestry: the application at it and,
/// when the walk asked, what its parent was found to be.
pub struct WalkStep {
    pub pid: u32,
    pub app: Option<RunningApp>,
    pub parent: Option<Option<u32>>,
}

/// A process that is neither init nor out of range.
pub open spec fn walkable(pid: u32) -> bool {
    2 <= pid <= 0x7fff_ffff
}

/// An application with a bundle identifier.
pub open spec fn is_app(a: Option<RunningApp>) -> bool {
    a matches Some(x) && x.bundle is Some
}

/// Step `k` went on to step `k + 1`: the parent it found is the next process,
/// and it is another process.
pub open spec fn linked(steps: Seq<WalkStep>, k: int) -> bool {
    &&& steps[k].parent == Some(Some(steps[k + 1].pid))
    &&& steps[k + 1].pid != steps[k].pid
}

pub open spec fn step_calls(s: WalkStep) -> Seq<HostCall> {
    seq![HostCall::ApplicationAt(s.pid, s.app)] + match s.parent {
        Some(p) => seq![HostCall::ParentOf(s.pid, p)],
        None => Seq::empty(),
    }
}

/// The calls that a walk makes, in order.
pub open spec fn walk_calls(steps: Seq<WalkStep>) -> Seq<HostCall>
    decreases steps.len(),
{
    if steps.len() == 0 {
        Seq::empty()
    } else {
        walk_calls(steps.drop_last()) + step_calls(steps.last())
    }
}

/// The walk up from `pid` took `steps` and found `r`. Each process in range is
/// asked for its application; the first that is an application with a bundle
/// identifier is the answer. Otherwise its parent is asked for and the walk goes
/// on, stopping without an answer at init or out of range, at a process that is
/// its own parent, when the parent is unknown, or after 32 processes.
pub open spec fn walk_ok(pid: u32, steps: Seq<WalkStep>, r: Option<RunningApp>) -> bool {
    let n = steps.len();
    &&& n <= 32
    &&& (n == 0 <==> !walkable(pid))
    &&& n > 0 ==> steps[0].pid == pid
    &&& forall|k: int| 0 <= k < n ==> walkable(#[trigger] steps[k].pid)
    &&& forall|k: int| 0 <= k < n - 1 ==> !is_app(#[trigger] steps[k].app)
    &&& forall|k: int| 0 <= k < n - 1 ==> #[trigger] linked(steps, k)
    &&& if n == 0 {
        r is None
    } else {
        let last = steps[n - 1];
        if is_app(last.app) {
            last.parent is None && r == last.app
        } else {
            &&& r is None
            &&& last.parent matches Some(p)
            &&& (p matches Some(q) ==> (q == last.pid || !walkable(q) || n == 32))
        }
    }
}

/// The application that process `start_pid` belongs to: the first process up
/// its ancestry that is an application.
fn app_for_pid<H: FocusHost>(host: &mut HostLog<H>, start_pid: u32) -> (r: (
    Option<RunningApp>,
    Ghost<Seq<WalkStep>>,
))
    ensures
        walk_ok(start_pid, r.1@, r.0),
        final(host).calls() == old(host).calls() + walk_calls(r.1@),
{
    let ghost start = host.calls();
    let ghost mut steps: Seq<WalkStep> = Seq::empty();
    let mut pid = start_pid;
    let mut looked: u32 = 0;
    assert(host.calls() =~= start + walk_calls(steps));
    loop
        invariant
            looked == steps.len(),
            looked <= 32,
            looked == 0 ==> pid == start_pid,
            looked > 0 ==> steps[0].pid == start_pid,
            looked > 0 ==> steps.last().parent == Some(Some(pid)) && pid != steps.last().pid,
            forall|k: int| 0 <= k < steps.len() ==> walkable(#[trigger] steps[k].pid),
            forall|k: int| 0 <= k < steps.len() ==> !is_app(#[trigger] steps[k].app),
            forall|k: int| 0 <= k < steps.len() - 1 ==> #[trigger] linked(steps, k),
            host.calls() == start + walk_calls(steps),
            start == old(host).calls(),
        decreases 32 - looked,
    {
        if !ancestry_continues(looked, pid) {
            proof {
                if looked > 0 {
                    assert(walkable(steps[0].pid));
                }
            }
            return (None, Ghost(steps));
        }
        let at = host.application_at(pid);
        let is_application = match &at {
            Some(a) => a.bundle.is_some(),
            None => false,
        };
        if is_application {
            let ghost next = steps.push(WalkStep { pid, app: at, parent: None });
            proof {
                assert(next.drop_last() =~= steps);
                assert(host.calls() =~= start + walk_calls(next));
                assert forall|k: int| 0 <= k < next.len() - 1 implies #[trigger] linked(next, k) by {
                    assert(next[k] == steps[k]);
                    if k < next.len() - 2 {
                        assert(linked(steps, k));
                    }
                }
                assert forall|k: int| 0 <= k < next.len() implies walkable(#[trigger] next[k].pid) by {
                    if k < steps.len() {
                        assert(next[k] == steps[k]);
                    }
                }
                assert forall|k: int| 0 <= k < next.len() - 1 implies !is_app(#[trigger] next[k].app) by {
                    assert(next[k] == steps[k]);
                }
            }
            return (at, Ghost(next));
        }
        let parent = host.parent_of(pid);
        let ghost next = steps.push(WalkStep { pid, app: at, parent: Some(parent) });
        proof {
            assert(next.drop_last() =~= steps);
            assert(host.calls() =~= start + walk_calls(next));
            assert forall|k: int| 0 <= k < next.len() - 1 implies #[trigger] linked(next, k) by {
                assert(next[k] == steps[k]);
                if k < next.len() - 2 {
                    assert(linked(steps, k));
                }
            }
            assert forall|k: int| 0 <= k < next.len() implies walkable(#[trigger] next[k].pid) by {
                if k < steps.len() {
                    assert(next[k] == steps[k]);
                }
            }
            assert forall|k: int| 0 <= k < next.len() implies !is_app(#[trigger] next[k].app) by {
                if k < steps.len() {
                    assert(next[k] == steps[k]);
                }
            }
        }
        match next_ancestor(pid, parent) {
            None => {
                return (None, Ghost(next));
            },
            Some(q) => {
                pid = q;
                looked = looked + 1;
                proof {
                    steps = next;
                }
            },
        }
    }
}

/// What the platform answered for each supported terminal, in order.
pub open spec fn terminal_calls(ans: Seq<Seq<RunningApp>>) -> Seq<HostCall> {
    seq![
        HostCall::RunningWithBundle("com.mitchellh.ghostty"@, ans[0]),
        HostCall::RunningWithBundle("com.apple.Terminal"@, ans[1]),
        HostCall::RunningWithBundle("com.googlecode.iterm2"@, ans[2]),
    ]
}

/// The running supported terminals: the instances of each, in order.
pub open spec fn terminals_ok(ans: Seq<Seq<RunningApp>>, apps: Seq<RunningApp>) -> bool {
    ans.len() == 3 && apps == ans[0] + ans[1] + ans[2]
}

fn terminal_apps<H: FocusHost>(host: &mut HostLog<H>) -> (r: (
    Vec<RunningApp>,
    Ghost<Seq<Seq<RunningApp>>>,
))
    ensures
        terminals_ok(r.1@, r.0@),
        final(host).calls() == old(host).calls() + terminal_calls(r.1@),
{
    let ghost start = host.calls();
    let ids = supported_terminals();
    let mut apps = host.running_with_bundle(ids[0]);
    let ghost a = apps@;
    let mut more = host.running_with_bundle(ids[1]);
    let ghost b = more@;
    apps.append(&mut more);
    let mut last = host.running_with_bundle(ids[2]);
    let ghost c = last@;
    apps.append(&mut last);
    let ghost ans = seq![a, b, c];
    assert(host.calls() =~= start + terminal_calls(ans));
    assert(apps@ =~= a + b + c);
    (apps, Ghost(ans))
}

/// How the applications were looked for, with every answer the platform gave.
pub enum Lookup {
    /// The instances of a bundle.
    Bundle(Seq<char>, Seq<RunningApp>),
    /// The walks up from the processes, in order, and the supported terminals
    /// when they were searched.
    Processes(Seq<(Seq<WalkStep>, Option<RunningApp>)>, Option<Seq<Seq<RunningApp>>>),
    /// The supported terminals.
    Terminals(Seq<Seq<RunningApp>>),
    /// Nowhere.
    Nothing,
}

pub open spec fn walks_calls(walks: Seq<(Seq<WalkStep>, Option<RunningApp>)>) -> Seq<HostCall>
    decreases walks.len(),
{
    if walks.len() == 0 {
        Seq::empty()
    } else {
        walks_calls(walks.drop_last()) + walk_calls(walks.last().0)
    }
}

/// The calls that a lookup makes, in order.
pub open spec fn lookup_calls(lk: Lookup) -> Seq<HostCall> {
    match lk {
        Lookup::Bundle(b, found) => seq![HostCall::RunningWithBundle(b, found)],
        Lookup::Processes(walks, terms) => walks_calls(walks) + match terms {
            Some(ans) => terminal_calls(ans),
            None => Seq::empty(),
        },
        Lookup::Terminals(ans) => terminal_calls(ans),
        Lookup::Nothing => Seq::empty(),
    }
}

/// The processes are walked up in order until one leads to an application,
/// which is then the only one; when none does, the supported terminals are
/// searched if `then_terminals`, else nothing is found.
pub open spec fn processes_ok(
    pids: Seq<u32>,
    then_terminals: bool,
    walks: Seq<(Seq<WalkStep>, Option<RunningApp>)>,
    terms: Option<Seq<Seq<RunningApp>>>,
    apps: Seq<RunningApp>,
) -> bool {
    &&& 0 < walks.len() <= pids.len()
    &&& forall|i: int| 0 <= i < walks.len() ==> #[trigger] walk_ok(pids[i], walks[i].0, walks[i].1)
    &&& forall|i: int| 0 <= i < walks.len() - 1 ==> (#[trigger] walks[i]).1 is None
    &&& match walks.last().1 {
        Some(a) => terms is None && apps == seq![a],
        None => {
            &&& walks.len() == pids.len()
            &&& if then_terminals {
                terms matches Some(ans) && terminals_ok(ans, apps)
            } else {
                terms is None && apps.len() == 0
            }
        },
    }
}

/// `apps` are the applications found for origin `o` as `lk` went: a bundle's
/// instances, the first with the origin's application process ID when it is
/// among them; else the application up the ancestry of the application's or
/// the agent's process, with the supported terminals searched when neither
/// leads to one and the origin names a session or window; else, for such a
/// hint alone, the supported terminals; else none.
pub open spec fn lookup_ok(o: Origin, lk: Lookup, apps: Seq<RunningApp>) -> bool {
    match opt_view(o.terminal_app) {
        Some(app) => lk matches Lookup::Bundle(b, found) && b == bundle_view(app) && narrowed(
            found,
            o.app_pid,
            apps,
        ),
        None => if o.app_pid is Some || o.pid is Some {
            lk matches Lookup::Processes(walks, terms) && processes_ok(
                opt_u32_seq(o.app_pid) + opt_u32_seq(o.pid),
                has_session_hint(o),
                walks,
                terms,
                apps,
            )
        } else if has_session_hint(o) {
            lk matches Lookup::Terminals(ans) && terminals_ok(ans, apps)
        } else {
            lk is Nothing && apps.len() == 0
        },
    }
}

fn process_apps<H: FocusHost>(host: &mut HostLog<H>, pids: &Vec<u32>, then_terminals: bool) -> (r: (
    Vec<RunningApp>,
    Ghost<Lookup>,
))
    requires
        pids@.len() > 0,
    ensures
        r.1@ matches Lookup::Processes(walks, terms) && processes_ok(
            pids@,
            then_terminals,
            walks,
            terms,
            r.0@,
        ),
        final(host).calls() == old(host).calls() + lookup_calls(r.1@),
{
    let ghost start = host.calls();
    let ghost mut walks: Seq<(Seq<WalkStep>, Option<RunningApp>)> = Seq::empty();
    let mut i: usize = 0;
    assert(host.calls() =~= start + walks_calls(walks));
    while i < pids.len()
        invariant
            i <= pids.len(),
            walks.len() == i,
            forall|j: int| 0 <= j < i ==> #[trigger] walk_ok(pids@[j], walks[j].0, walks[j].1),
            forall|j: int| 0 <= j < i ==> (#[trigger] walks[j]).1 is None,
            host.calls() == start + walks_calls(walks),
            start == old(host).calls(),
        decreases pids.len() - i,
    {
        let (found, Ghost(steps)) = app_for_pid(host, pids[i]);
        let ghost next = walks.push((steps, found));
        proof {
            assert(next.drop_last() =~= walks);
            assert(host.calls() =~= start + walks_calls(next));
            assert forall|j: int| 0 <= j < next.len() implies #[trigger] walk_ok(
                pids@[j],
                next[j].0,
                next[j].1,
            ) by {
                if j < i {
                    assert(next[j] == walks[j]);
                }
            }
            assert forall|j: int| 0 <= j < next.len() - 1 implies (#[trigger] next[j]).1 is None by {
                assert(next[j] == walks[j]);
            }
        }
        if let Some(app) = found {
            let mut v: Vec<RunningApp> = Vec::new();
            v.push(app);
            let ghost lk = Lookup::Processes(next, None);
            assert(host.calls() =~= start + lookup_calls(lk));
            return (v, Ghost(lk));
        }
        proof {
            walks = next;
        }
        i = i + 1;
    }
    if then_terminals {
        let (apps, Ghost(ans)) = terminal_apps(host);
        let ghost lk = Lookup::Processes(walks, Some(ans));
        assert(host.calls() =~= start + lookup_calls(lk));
        (apps, Ghost(lk))
    } else {
        let ghost lk = Lookup::Processes(walks, None);
        assert(host.calls() =~= start + lookup_calls(lk));
        (Vec::new(), Ghost(lk))
    }
}

pub(crate) fn find_apps<H: FocusHost>(origin: &Origin, host: &mut HostLog<H>) -> (r: (
    Vec<RunningApp>,
    Ghost<Lookup>,
))
    ensures
        lookup_ok(*origin, r.1@, r.0@),
        final(host).calls() == old(host).calls() + lookup_calls(r.1@),
{
    let ghost start = host.calls();
    let query = application_query(origin);
    match query {
        AppQuery::Bundle { bundle, prefer_pid } => {
            let found = host.running_with_bundle(bundle.as_str());
            let ghost lk = Lookup::Bundle(bundle@, found@);
            assert(host.calls() =~= start + lookup_calls(lk));
            (narrow_to_pid(found, prefer_pid), Ghost(lk))
        },
        AppQuery::Processes { pids, then_terminals } => process_apps(host, &pids, then_terminals),
        AppQuery::SupportedTerminals => {
            let (apps, Ghost(ans)) = terminal_apps(host);
            let ghost lk = Lookup::Terminals(ans);
            (apps, Ghost(lk))
        },
        AppQuery::Nothing => {
            let ghost lk = Lookup::Nothing;
            assert(host.calls() =~= start + lookup_calls(lk));
            (Vec::new(), Ghost(lk))
        },
    }
}

/// The running applications that may own the origin's session.
pub fn applications<H: FocusHost>(origin: &Origin, host: &mut HostLog<H>) -> (r: Vec<RunningApp>)
    ensures
        exists|lk: Lookup|
            #![trigger lookup_ok(*origin, lk, r@)]
            lookup_ok(*origin, lk, r@) && final(host).calls() == old(host).calls() + lookup_calls(lk),
{
    let (r, Ghost(lk)) = find_apps(origin, host);
    r
}

} // verus!
