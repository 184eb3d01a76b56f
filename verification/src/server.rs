//! The service's alert book-keeping: which alerts are active, one per session,
//! and which one the shared sound loop plays.
use vstd::prelude::*;
use vstd::utf8::encode_utf8;

use crate::notification::{DesktopStatus, Notification};
use crate::origin::{opt_string_eq, opt_view, Origin, OriginFault};
use crate::text::{
    any_control, chars_of, has_control, hex32, hex_digits, str_eq, trim, trim_view,
    utf8_len_within,
};

verus! {

/// `std::time::Instant`, carried through as an opaque value.
#[verifier::external_type_specification]
#[verifier::external_body]
pub struct ExInstant(std::time::Instant);

/// `std::time::Instant::elapsed`: the time since `seen`. The value depends on
/// the clock: nothing is stated of it.
#[verifier::external_body]
fn instant_elapsed(seen: &std::time::Instant) -> std::time::Duration {
    seen.elapsed()
}

/// `std::time::Duration::as_secs`: the whole seconds of `d`. A `Duration` is
/// opaque here, so nothing is stated of the value.
#[verifier::external_body]
fn duration_secs(d: std::time::Duration) -> u64 {
    d.as_secs()
}

/// `rand::random::<u128>()`: a value drawn from the thread-local generator.
/// Nothing is stated of it: any `u128` can come back. The generator panics only
/// when the operating system's random source cannot seed it.
#[verifier::external_body]
fn random_u128() -> u128 {
    rand::random::<u128>()
}

pub open spec fn await_kind() -> Seq<char> {
    "awaiting_user_input"@
}

pub open spec fn done_kind() -> Seq<char> {
    "all_tasks_finished"@
}

/// The kind of an alert: a question, or a finished task.
pub open spec fn kind_view(done: bool) -> Seq<char> {
    if done {
        done_kind()
    } else {
        await_kind()
    }
}

/// The sounds that the two kinds of alert loop over.
#[derive(Debug)]
pub struct SoundConfig {
    pub alert_done_sound: Option<String>,
    pub extra_alert_done_sounds: Vec<String>,
    pub alert_await_user_input_sound: Option<String>,
    pub extra_alert_await_sounds: Vec<String>,
}

pub open spec fn opt_seq(o: Option<String>) -> Seq<String> {
    match o {
        Some(s) => seq![s],
        None => Seq::empty(),
    }
}

impl SoundConfig {
    pub open spec fn primary(&self, done: bool) -> Option<String> {
        if done {
            self.alert_done_sound
        } else {
            self.alert_await_user_input_sound
        }
    }

    pub open spec fn extras(&self, done: bool) -> Seq<String> {
        if done {
            self.extra_alert_done_sounds@
        } else {
            self.extra_alert_await_sounds@
        }
    }

    /// The primary sound, if any, then the extra ones.
    pub open spec fn pool_view(&self, done: bool) -> Seq<String> {
        opt_seq(self.primary(done)) + self.extras(done)
    }

    pub fn has_primary(&self, done: bool) -> (r: bool)
        ensures
            r == self.primary(done) is Some,
    {
        if done {
            self.alert_done_sound.is_some()
        } else {
            self.alert_await_user_input_sound.is_some()
        }
    }

    /// The sounds that an alert of this kind loops over.
    pub fn sound_pool(&self, done: bool) -> (r: Vec<String>)
        ensures
            r@ == self.pool_view(done),
    {
        let (primary, extras) = if done {
            (&self.alert_done_sound, &self.extra_alert_done_sounds)
        } else {
            (&self.alert_await_user_input_sound, &self.extra_alert_await_sounds)
        };
        let mut pool: Vec<String> = Vec::new();
        if let Some(p) = primary {
            pool.push(p.clone());
        }
        let ghost start = pool@;
        let mut i: usize = 0;
        while i < extras.len()
            invariant
                i <= extras.len(),
                pool@ == start + extras@.take(i as int),
            decreases extras.len() - i,
        {
            pool.push(extras[i].clone());
            assert(extras@.take(i + 1) =~= extras@.take(i as int).push(extras@[i as int]));
            i = i + 1;
        }
        assert(extras@.take(extras.len() as int) =~= extras@);
        assert(start == opt_seq(self.primary(done)));
        pool
    }
}

/// A request to raise an alert.
#[derive(Debug)]
pub struct NotificationRequest {
    pub title: String,
    pub message: String,
    pub session_id: Option<String>,
    pub origin: Option<Origin>,
}

/// Why a request did not raise an alert.
#[derive(Debug, Clone, Copy, PartialEq, Eq)]
pub enum NotifyError {
    /// `session_id` is blank, over 256 bytes, or holds a control character.
    InvalidSessionId,
    /// The origin breaks a rule.
    InvalidOrigin(OriginFault),
    /// Title or message is empty after trimming, or too long.
    InvalidText,
    /// No primary sound is configured for this kind.
    SoundNotConfigured,
    /// A configured sound file is not there.
    SoundMissing,
}

impl NotifyError {
    /// Whether the caller is at fault (400) rather than the service (503).
    pub fn is_bad_request(&self) -> (r: bool)
        ensures
            r == !(*self is SoundNotConfigured || *self is SoundMissing),
    {
        match self {
            NotifyError::SoundNotConfigured | NotifyError::SoundMissing => false,
            _ => true,
        }
    }

    pub open spec fn message_view(self) -> Seq<char> {
        match self {
            NotifyError::InvalidSessionId =>
                "session_id must be nonblank, at most 256 bytes, and contain no control characters\n"@,
            NotifyError::InvalidOrigin(f) => f.message_view(),
            NotifyError::InvalidText =>
                "title must be 1–200 characters; message must be 1–4000 characters\n"@,
            NotifyError::SoundNotConfigured => "notification sound is not configured\n"@,
            NotifyError::SoundMissing => "configured notification sound is missing\n"@,
        }
    }

    /// The body that the refusal is answered with.
    pub fn message(&self) -> (m: &'static str)
        ensures
            m@ == self.message_view(),
    {
        match self {
            NotifyError::InvalidSessionId =>
                "session_id must be nonblank, at most 256 bytes, and contain no control characters\n",
            NotifyError::InvalidOrigin(f) => f.message(),
            NotifyError::InvalidText =>
                "title must be 1–200 characters; message must be 1–4000 characters\n",
            NotifyError::SoundNotConfigured => "notification sound is not configured\n",
            NotifyError::SoundMissing => "configured notification sound is missing\n",
        }
    }
}

/// A session identifier: not blank, at most 256 bytes, no control character.
pub open spec fn session_ok(s: Option<Seq<char>>) -> bool {
    match s {
        Some(x) => trim_view(x).len() > 0 && encode_utf8(x).len() <= 256 && !has_control(x),
        None => true,
    }
}

/// Title and message, trimmed, hold 1 to 200 and 1 to 4000 characters.
pub open spec fn text_fits(title: Seq<char>, message: Seq<char>) -> bool {
    let t = trim_view(title);
    let m = trim_view(message);
    0 < t.len() <= 200 && 0 < m.len() <= 4000
}

pub open spec fn opt_origin_fault(o: Option<Origin>) -> Option<OriginFault> {
    match o {
        Some(x) => crate::origin::origin_fault(x@),
        None => None,
    }
}

/// The refusal that a request earns, checked in this order; `None` when it is accepted.
pub open spec fn notify_fault(
    req: NotificationRequest,
    done: bool,
    config: SoundConfig,
    pool_ready: bool,
) -> Option<NotifyError> {
    if !session_ok(opt_view(req.session_id)) {
        Some(NotifyError::InvalidSessionId)
    } else if opt_origin_fault(req.origin) is Some {
        Some(NotifyError::InvalidOrigin(opt_origin_fault(req.origin)->0))
    } else if !text_fits(req.title@, req.message@) {
        Some(NotifyError::InvalidText)
    } else if config.primary(done) is None {
        Some(NotifyError::SoundNotConfigured)
    } else if !pool_ready {
        Some(NotifyError::SoundMissing)
    } else {
        None
    }
}

/// A question that still sounds.
pub open spec fn audible_question(n: Notification) -> bool {
    !n.silenced && n.kind@ == await_kind()
}

pub open spec fn is_first_audible_question(s: Seq<Notification>, i: int) -> bool {
    &&& 0 <= i < s.len()
    &&& audible_question(s[i])
    &&& forall|j: int| 0 <= j < i ==> !#[trigger] audible_question(s[j])
}

pub open spec fn is_first_audible(s: Seq<Notification>, i: int) -> bool {
    &&& 0 <= i < s.len()
    &&& !s[i].silenced
    &&& forall|j: int| 0 <= j < i ==> #[trigger] s[j].silenced
}

pub open spec fn first_audible_question(s: Seq<Notification>) -> Option<int> {
    if exists|i: int| is_first_audible_question(s, i) {
        Some(choose|i: int| is_first_audible_question(s, i))
    } else {
        None
    }
}

pub open spec fn first_audible(s: Seq<Notification>) -> Option<int> {
    if exists|i: int| is_first_audible(s, i) {
        Some(choose|i: int| is_first_audible(s, i))
    } else {
        None
    }
}

/// The alert whose sound loops: the most recent question that still sounds,
/// else the most recent alert that still sounds.
pub open spec fn audio_choice(s: Seq<Notification>) -> Option<int> {
    match first_audible_question(s) {
        Some(i) => Some(i),
        None => first_audible(s),
    }
}

/// The id of the alert whose sound loops.
pub open spec fn audio_target(s: Seq<Notification>) -> Option<Seq<char>> {
    match audio_choice(s) {
        Some(i) => Some(s[i].id@),
        None => None,
    }
}

/// The loop's name: `await` for a question, `done` otherwise.
pub open spec fn loop_name(question: bool) -> Seq<char> {
    if question {
        "await"@
    } else {
        "done"@
    }
}

/// A sound loop to start, replacing the one that plays.
#[derive(Debug)]
pub struct LoopSpec {
    pub name: String,
    pub pool: Vec<String>,
}

/// What the audio player is told after a change.
#[derive(Debug)]
pub enum AudioAction {
    /// Leave the loop that plays alone.
    Keep,
    /// Replace it with this loop.
    PlayLoop(LoopSpec),
    /// Stop all sound.
    StopAll,
}

/// An `AudioAction` with the loop's name taken by its characters.
pub enum AudioDecision {
    Keep,
    Play(Seq<char>, Seq<String>),
    Stop,
}

impl AudioAction {
    pub open spec fn decision(&self) -> AudioDecision {
        match self {
            AudioAction::Keep => AudioDecision::Keep,
            AudioAction::PlayLoop(l) => AudioDecision::Play(l.name@, l.pool@),
            AudioAction::StopAll => AudioDecision::Stop,
        }
    }
}

/// What the player is told when the loop was for `prev` and the alerts are now `s`:
/// nothing when the chosen alert is the same one, else its loop, else silence.
pub open spec fn decide_audio(
    prev: Option<Seq<char>>,
    s: Seq<Notification>,
    config: SoundConfig,
) -> AudioDecision {
    if prev == audio_target(s) {
        AudioDecision::Keep
    } else {
        match audio_choice(s) {
            Some(i) => {
                let question = s[i].kind@ == await_kind();
                AudioDecision::Play(loop_name(question), config.pool_view(!question))
            },
            None => AudioDecision::Stop,
        }
    }
}

/// The alerts that are active and the sound loop's owner.
pub struct NotificationState {
    /// Most recently updated first; one entry per session (None is the legacy slot).
    pub active: Vec<Notification>,
    pub audio_id: Option<String>,
    pub desktop: DesktopStatus,
    pub desktop_seen: Option<std::time::Instant>,
}

impl Default for NotificationState {
    fn default() -> (r: Self)
        ensures
            r.active@.len() == 0,
            r.audio_id is None,
            r.desktop.is_initial(),
            r.desktop_seen is None,
            r.audio_consistent(),
            r.sessions_distinct(),
    {
        NotificationState {
            active: Vec::new(),
            audio_id: None,
            desktop: DesktopStatus::default(),
            desktop_seen: None,
        }
    }
}

/// The tray app counts as connected while its last report is under 15 s old.
pub fn connected_within(elapsed_secs: u64) -> (r: bool)
    ensures
        r == (elapsed_secs < 15),
{
    elapsed_secs < 15
}

impl NotificationState {
    /// Whether the tray app reported within the last 15 seconds.
    pub fn desktop_connected(&self) -> (r: bool)
        ensures
            self.desktop_seen is None ==> !r,
    {
        match &self.desktop_seen {
            Some(seen) => connected_within(duration_secs(instant_elapsed(seen))),
            None => false,
        }
    }

    /// The sound loop plays for the alert that `audio_choice` names.
    pub open spec fn audio_consistent(&self) -> bool {
        opt_view(self.audio_id) == audio_target(self.active@)
    }

    /// No two active alerts share a session.
    pub open spec fn sessions_distinct(&self) -> bool {
        distinct_sessions(self.active@)
    }
}

/// No two alerts of `s` share a session.
pub open spec fn distinct_sessions(s: Seq<Notification>) -> bool {
    forall|i: int, j: int|
        0 <= i < j < s.len() ==> opt_view(#[trigger] s[i].session_id) != opt_view(
            #[trigger] s[j].session_id,
        )
}

/// The whole state of the service.
pub struct ServerState {
    pub config: SoundConfig,
    pub notifications: NotificationState,
}

pub open spec fn is_first_session_match(s: Seq<Notification>, sid: Option<Seq<char>>, i: int) -> bool {
    &&& 0 <= i < s.len()
    &&& opt_view(s[i].session_id) == sid
    &&& forall|j: int| 0 <= j < i ==> opt_view(#[trigger] s[j].session_id) != sid
}

/// Where the alert of session `sid` stands, if one does.
pub open spec fn session_slot(s: Seq<Notification>, sid: Option<Seq<char>>) -> Option<int> {
    if exists|i: int| is_first_session_match(s, sid, i) {
        Some(choose|i: int| is_first_session_match(s, sid, i))
    } else {
        None
    }
}

/// The alerts without the one at `slot`.
pub open spec fn without_slot(s: Seq<Notification>, slot: Option<int>) -> Seq<Notification> {
    match slot {
        Some(k) => s.remove(k),
        None => s,
    }
}

/// The state after `req` was accepted under `id`, and what came back.
pub open spec fn notify_post(
    old: ServerState,
    new: ServerState,
    req: NotificationRequest,
    done: bool,
    id: u128,
    n: Notification,
    a: AudioAction,
) -> bool {
    let slot = session_slot(old.notifications.active@, opt_view(req.session_id));
    &&& n.id@ == hex_digits(id as nat, 32)
    &&& n.session_id == req.session_id
    &&& !n.silenced
    &&& n.kind@ == kind_view(done)
    &&& n.title@ == trim_view(req.title@)
    &&& n.message@ == trim_view(req.message@)
    &&& n.origin == match req.origin {
        Some(o) => Some(o),
        None => match slot {
            Some(k) => old.notifications.active@[k].origin,
            None => None,
        },
    }
    &&& new.notifications.active@ == seq![n] + without_slot(old.notifications.active@, slot)
    &&& new.config == old.config
    &&& new.notifications.desktop == old.notifications.desktop
    &&& new.notifications.desktop_seen == old.notifications.desktop_seen
    &&& new.notifications.audio_consistent()
    &&& a.decision() == decide_audio(
        opt_view(old.notifications.audio_id),
        new.notifications.active@,
        old.config,
    )
}

/// The alerts without those whose id is `id`.
pub open spec fn without_id(s: Seq<Notification>, id: Seq<char>) -> Seq<Notification>
    decreases s.len(),
{
    if s.len() == 0 {
        s
    } else {
        let rest = without_id(s.drop_last(), id);
        if s.last().id@ == id {
            rest
        } else {
            rest.push(s.last())
        }
    }
}

pub open spec fn has_id(s: Seq<Notification>, id: Seq<char>) -> bool {
    exists|i: int| 0 <= i < s.len() && (#[trigger] s[i]).id@ == id
}

pub open spec fn is_first_silenceable(s: Seq<Notification>, id: Seq<char>, i: int) -> bool {
    &&& 0 <= i < s.len()
    &&& s[i].id@ == id
    &&& !s[i].silenced
    &&& forall|j: int| 0 <= j < i ==> !((#[trigger] s[j]).id@ == id && !s[j].silenced)
}

/// The first alert with id `id` that still sounds.
pub open spec fn silence_slot(s: Seq<Notification>, id: Seq<char>) -> Option<int> {
    if exists|i: int| is_first_silenceable(s, id, i) {
        Some(choose|i: int| is_first_silenceable(s, id, i))
    } else {
        None
    }
}

/// `n`, silenced.
pub open spec fn silenced(n: Notification) -> Notification {
    Notification { silenced: true, ..n }
}

fn is_question(n: &Notification) -> (r: bool)
    ensures
        r == (n.kind@ == await_kind()),
{
    str_eq(n.kind.as_str(), "awaiting_user_input")
}

/// Where the sound loop's alert stands.
fn audio_choice_exec(s: &Vec<Notification>) -> (r: Option<usize>)
    ensures
        match r {
            Some(i) => audio_choice(s@) == Some(i as int),
            None => audio_choice(s@) is None,
        },
{
    let mut i: usize = 0;
    while i < s.len()
        invariant
            i <= s.len(),
            forall|j: int| 0 <= j < i ==> !#[trigger] audible_question(s@[j]),
        decreases s.len() - i,
    {
        if !s[i].silenced && is_question(&s[i]) {
            proof {
                assert(is_first_audible_question(s@, i as int));
                let k = choose|k: int| is_first_audible_question(s@, k);
                assert(k == i);
            }
            return Some(i);
        }
        i = i + 1;
    }
    assert(first_audible_question(s@) is None);
    let mut i: usize = 0;
    while i < s.len()
        invariant
            i <= s.len(),
            first_audible_question(s@) is None,
            forall|j: int| 0 <= j < i ==> #[trigger] s@[j].silenced,
        decreases s.len() - i,
    {
        if !s[i].silenced {
            proof {
                assert(is_first_audible(s@, i as int));
                let k = choose|k: int| is_first_audible(s@, k);
                assert(k == i);
            }
            return Some(i);
        }
        i = i + 1;
    }
    None
}

/// Session check as the service runs it.
fn session_check(s: &Option<String>) -> (r: bool)
    ensures
        r == session_ok(opt_view(*s)),
{
    match s {
        None => true,
        Some(x) => {
            let v = chars_of(x.as_str());
            let t = trim(x.as_str());
            !t.as_str().is_empty() && utf8_len_within(&v, 256) && !any_control(&v)
        },
    }
}

/// Where the alert of the session `sid` stands.
fn session_slot_exec(s: &Vec<Notification>, sid: &Option<String>) -> (r: Option<usize>)
    ensures
        match r {
            Some(i) => session_slot(s@, opt_view(*sid)) == Some(i as int),
            None => session_slot(s@, opt_view(*sid)) is None,
        },
{
    let mut i: usize = 0;
    while i < s.len()
        invariant
            i <= s.len(),
            forall|j: int| 0 <= j < i ==> opt_view(#[trigger] s@[j].session_id) != opt_view(*sid),
        decreases s.len() - i,
    {
        if opt_string_eq(&s[i].session_id, sid) {
            proof {
                assert(is_first_session_match(s@, opt_view(*sid), i as int));
                let k = choose|k: int| is_first_session_match(s@, opt_view(*sid), k);
                assert(k == i);
            }
            return Some(i);
        }
        i = i + 1;
    }
    None
}

/// Where the first alert with id `id` that still sounds stands.
fn silence_slot_exec(s: &Vec<Notification>, id: &str) -> (r: Option<usize>)
    ensures
        match r {
            Some(i) => silence_slot(s@, id@) == Some(i as int),
            None => silence_slot(s@, id@) is None,
        },
{
    let mut i: usize = 0;
    while i < s.len()
        invariant
            i <= s.len(),
            forall|j: int| 0 <= j < i ==> !((#[trigger] s@[j]).id@ == id@ && !s@[j].silenced),
        decreases s.len() - i,
    {
        if str_eq(s[i].id.as_str(), id) && !s[i].silenced {
            proof {
                assert(is_first_silenceable(s@, id@, i as int));
                let k = choose|k: int| is_first_silenceable(s@, id@, k);
                assert(k == i);
            }
            return Some(i);
        }
        i = i + 1;
    }
    None
}

/// Whether some alert has id `id`.
fn has_id_exec(s: &Vec<Notification>, id: &str) -> (r: bool)
    ensures
        r == has_id(s@, id@),
{
    let mut i: usize = 0;
    while i < s.len()
        invariant
            i <= s.len(),
            forall|j: int| 0 <= j < i ==> (#[trigger] s@[j]).id@ != id@,
        decreases s.len() - i,
    {
        if str_eq(s[i].id.as_str(), id) {
            return true;
        }
        i = i + 1;
    }
    false
}

/// The alerts of `s` whose id is not `id`, in order.
fn without_id_exec(s: &Vec<Notification>, id: &str) -> (r: Vec<Notification>)
    ensures
        r@ == without_id(s@, id@),
{
    let mut kept: Vec<Notification> = Vec::new();
    let mut i: usize = 0;
    assert(s@.take(0) =~= Seq::<Notification>::empty());
    while i < s.len()
        invariant
            i <= s.len(),
            kept@ == without_id(s@.take(i as int), id@),
        decreases s.len() - i,
    {
        assert(s@.take(i + 1).drop_last() =~= s@.take(i as int));
        if !str_eq(s[i].id.as_str(), id) {
            kept.push(s[i].clone());
        }
        i = i + 1;
    }
    assert(s@.take(s.len() as int) =~= s@);
    kept
}

impl ServerState {
    /// Points the sound loop at the alert that `audio_choice` names, and says what
    /// the player must do about it.
    fn reconcile_audio(&mut self) -> (a: AudioAction)
        ensures
            final(self).config == old(self).config,
            final(self).notifications.active == old(self).notifications.active,
            final(self).notifications.desktop == old(self).notifications.desktop,
            final(self).notifications.desktop_seen == old(self).notifications.desktop_seen,
            final(self).notifications.audio_consistent(),
            a.decision() == decide_audio(
                opt_view(old(self).notifications.audio_id),
                old(self).notifications.active@,
                old(self).config,
            ),
    {
        let choice = audio_choice_exec(&self.notifications.active);
        let next_id: Option<String> = match choice {
            Some(i) => Some(self.notifications.active[i].id.clone()),
            None => None,
        };
        if opt_string_eq(&self.notifications.audio_id, &next_id) {
            return AudioAction::Keep;
        }
        let action = match choice {
            Some(i) => {
                let question = is_question(&self.notifications.active[i]);
                let name = if question {
                    String::from_str("await")
                } else {
                    String::from_str("done")
                };
                AudioAction::PlayLoop(LoopSpec { name, pool: self.config.sound_pool(!question) })
            },
            None => AudioAction::StopAll,
        };
        self.notifications.audio_id = next_id;
        action
    }

    /// Accepts or refuses a request, with `id` as the new alert's random number.
    /// An accepted alert goes first and replaces that of its session, whose
    /// origin it keeps when the request carries none.
    pub fn notify_with_id(
        &mut self,
        request: NotificationRequest,
        done: bool,
        pool_ready: bool,
        id: u128,
    ) -> (r: Result<(Notification, AudioAction), NotifyError>)
        ensures
            match notify_fault(request, done, old(self).config, pool_ready) {
                Some(e) => r == Err::<(Notification, AudioAction), NotifyError>(e) && *final(self)
                    == *old(self),
                None => r matches Ok((n, a)) && notify_post(
                    *old(self),
                    *final(self),
                    request,
                    done,
                    id,
                    n,
                    a,
                ),
            },
            old(self).notifications.sessions_distinct()
                ==> final(self).notifications.sessions_distinct(),
    {
        if !session_check(&request.session_id) {
            return Err(NotifyError::InvalidSessionId);
        }
        if let Some(o) = &request.origin {
            if let Some(f) = o.fault() {
                return Err(NotifyError::InvalidOrigin(f));
            }
        }
        let title = trim(request.title.as_str());
        let message = trim(request.message.as_str());
        let title_len = title.as_str().unicode_len();
        let message_len = message.as_str().unicode_len();
        if title_len == 0 || message_len == 0 || title_len > 200 || message_len > 4000 {
            return Err(NotifyError::InvalidText);
        }
        if !self.config.has_primary(done) {
            return Err(NotifyError::SoundNotConfigured);
        }
        if !pool_ready {
            return Err(NotifyError::SoundMissing);
        }
        let kind = if done {
            String::from_str("all_tasks_finished")
        } else {
            String::from_str("awaiting_user_input")
        };
        let NotificationRequest { title: _, message: _, session_id, origin } = request;
        let mut notification = Notification {
            id: hex32(id),
            session_id,
            silenced: false,
            kind,
            title,
            message,
            origin,
        };
        let slot = session_slot_exec(&self.notifications.active, &notification.session_id);
        if let Some(k) = slot {
            let previous = self.notifications.active.remove(k);
            if notification.origin.is_none() {
                notification.origin = previous.origin;
            }
        }
        let ghost kept = self.notifications.active@;
        self.notifications.active.insert(0, notification.clone());
        assert(self.notifications.active@ =~= seq![notification] + kept);
        let action = self.reconcile_audio();
        proof {
            if old(self).notifications.sessions_distinct() {
                crate::laws::law_accepting_keeps_one_alert_per_session(
                    *old(self),
                    *self,
                    request,
                    done,
                    id,
                    notification,
                    action,
                );
            }
        }
        Ok((notification, action))
    }

    /// Accepts or refuses a request; an accepted alert gets a random id.
    pub fn notify(&mut self, request: NotificationRequest, done: bool, pool_ready: bool) -> (r:
        Result<(Notification, AudioAction), NotifyError>)
        ensures
            match notify_fault(request, done, old(self).config, pool_ready) {
                Some(e) => r == Err::<(Notification, AudioAction), NotifyError>(e) && *final(self)
                    == *old(self),
                None => r matches Ok((n, a)) && exists|id: u128|
                    #[trigger] notify_post(*old(self), *final(self), request, done, id, n, a),
            },
            old(self).notifications.sessions_distinct()
                ==> final(self).notifications.sessions_distinct(),
    {
        let id = random_u128();
        self.notify_with_id(request, done, pool_ready, id)
    }

    /// Clears every alert with id `id`; `true` when there was one. A stale id
    /// changes nothing.
    pub fn dismiss(&mut self, id: &str) -> (r: (bool, AudioAction))
        ensures
            r.0 == has_id(old(self).notifications.active@, id@),
            r.0 ==> {
                &&& final(self).notifications.active@ == without_id(
                    old(self).notifications.active@,
                    id@,
                )
                &&& final(self).config == old(self).config
                &&& final(self).notifications.desktop == old(self).notifications.desktop
                &&& final(self).notifications.desktop_seen == old(self).notifications.desktop_seen
                &&& final(self).notifications.audio_consistent()
                &&& r.1.decision() == decide_audio(
                    opt_view(old(self).notifications.audio_id),
                    final(self).notifications.active@,
                    old(self).config,
                )
            },
            !r.0 ==> *final(self) == *old(self) && r.1 is Keep,
            old(self).notifications.sessions_distinct()
                ==> final(self).notifications.sessions_distinct(),
    {
        proof {
            if old(self).notifications.sessions_distinct() {
                crate::laws::law_dismissing_keeps_one_alert_per_session(
                    old(self).notifications.active@,
                    id@,
                );
            }
        }
        if !has_id_exec(&self.notifications.active, id) {
            return (false, AudioAction::Keep);
        }
        let kept = without_id_exec(&self.notifications.active, id);
        self.notifications.active = kept;
        let action = self.reconcile_audio();
        (true, action)
    }

    /// Silences the first alert with id `id` that still sounds, keeping its row;
    /// `true` when there was one.
    pub fn silence(&mut self, id: &str) -> (r: (bool, AudioAction))
        ensures
            r.0 == silence_slot(old(self).notifications.active@, id@) is Some,
            r.0 ==> {
                let k = silence_slot(old(self).notifications.active@, id@)->0;
                &&& final(self).notifications.active@ == old(self).notifications.active@.update(
                    k,
                    silenced(old(self).notifications.active@[k]),
                )
                &&& final(self).config == old(self).config
                &&& final(self).notifications.desktop == old(self).notifications.desktop
                &&& final(self).notifications.desktop_seen == old(self).notifications.desktop_seen
                &&& final(self).notifications.audio_consistent()
                &&& r.1.decision() == decide_audio(
                    opt_view(old(self).notifications.audio_id),
                    final(self).notifications.active@,
                    old(self).config,
                )
            },
            !r.0 ==> *final(self) == *old(self) && r.1 is Keep,
            old(self).notifications.sessions_distinct()
                ==> final(self).notifications.sessions_distinct(),
    {
        match silence_slot_exec(&self.notifications.active, id) {
            None => (false, AudioAction::Keep),
            Some(k) => {
                let ghost before = self.notifications.active@;
                let mut n = self.notifications.active.remove(k);
                n.silenced = true;
                self.notifications.active.insert(k, n);
                assert(self.notifications.active@ =~= before.update(k as int, silenced(before[k as int])));
                proof {
                    if old(self).notifications.sessions_distinct() {
                        crate::laws::law_silencing_keeps_one_alert_per_session(before, k as int);
                    }
                }
                let action = self.reconcile_audio();
                (true, action)
            },
        }
    }

    /// Clears every alert and stops all sound.
    pub fn stop(&mut self) -> (a: AudioAction)
        ensures
            final(self).notifications.active@.len() == 0,
            final(self).notifications.audio_id is None,
            final(self).notifications.audio_consistent(),
            final(self).notifications.sessions_distinct(),
            final(self).config == old(self).config,
            final(self).notifications.desktop == old(self).notifications.desktop,
            final(self).notifications.desktop_seen == old(self).notifications.desktop_seen,
            a is StopAll,
    {
        self.notifications.active.clear();
        self.notifications.audio_id = None;
        assert(audio_choice(self.notifications.active@) is None);
        AudioAction::StopAll
    }

    /// Records the tray app's report and `now`, the clock's reading when it came.
    pub fn record_desktop_status(&mut self, status: DesktopStatus, now: std::time::Instant)
        ensures
            final(self).notifications.desktop == status,
            final(self).notifications.desktop_seen == Some(now),
            final(self).notifications.active == old(self).notifications.active,
            final(self).notifications.audio_id == old(self).notifications.audio_id,
            final(self).config == old(self).config,
    {
        self.notifications.desktop = status;
        self.notifications.desktop_seen = Some(now);
    }

    /// The most recently raised or updated alert.
    pub fn current(&self) -> (r: Option<&Notification>)
        ensures
            match r {
                Some(n) => self.notifications.active@.len() > 0 && *n
                    == self.notifications.active@[0],
                None => self.notifications.active@.len() == 0,
            },
    {
        if self.notifications.active.len() == 0 {
            None
        } else {
            Some(&self.notifications.active[0])
        }
    }

    /// Every active alert, most recent first.
    pub fn list(&self) -> (r: &Vec<Notification>)
        ensures
            r@ == self.notifications.active@,
    {
        &self.notifications.active
    }
}

/// The address the tray app reaches the service at: loopback, on the port the
/// service listens on.
pub open spec fn service_url_view(ipv6: bool, port: u16) -> Seq<char> {
    "http://"@ + (if ipv6 {
        "[::1]"@
    } else {
        "127.0.0.1"@
    }) + ":"@ + crate::text::decimal_view(port as nat)
}

pub fn service_url(ipv6: bool, port: u16) -> (r: String)
    ensures
        r@ == service_url_view(ipv6, port),
{
    let mut url = String::from_str("http://");
    url.append(if ipv6 {
        "[::1]"
    } else {
        "127.0.0.1"
    });
    url.append(":");
    let digits = crate::text::decimal(port);
    url.append(digits.as_str());
    url
}

/// The arguments that open the tray app in the background, pointed at the service.
pub fn desktop_launch_args(app: &str, ipv6: bool, port: u16) -> (r: Vec<String>)
    ensures
        r@.len() == 5,
        r@[0]@ == "-g"@,
        r@[1]@ == app@,
        r@[2]@ == "--args"@,
        r@[3]@ == "--server-url"@,
        r@[4]@ == service_url_view(ipv6, port),
{
    let mut args: Vec<String> = Vec::new();
    args.push(String::from_str("-g"));
    args.push(String::from_str(app));
    args.push(String::from_str("--args"));
    args.push(String::from_str("--server-url"));
    args.push(service_url(ipv6, port));
    args
}

/// What `/health` answers.
#[derive(Debug)]
pub struct Health {
    pub service: String,
    pub api_version: u32,
    pub pid: u32,
}

/// The service's identity, for the process `pid`.
pub fn health(pid: u32) -> (r: Health)
    ensures
        r.service@ == "desktop-notify"@,
        r.api_version == 3,
        r.pid == pid,
{
    Health { service: String::from_str("desktop-notify"), api_version: 3, pid }
}

} // verus!
