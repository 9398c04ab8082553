//! The console session: what the user's lines mean, and the state machine of
//! a playing track with its online and offline modes.
use vstd::prelude::*;

use crate::text::{chars_of, trim, trimmed};

verus! {

/// A transport command as typed by the user.
#[derive(Debug, Clone, Copy, PartialEq, Eq, Structural)]
pub enum Command {
    Pause,
    Resume,
    Stop,
    Offline,
    Online,
    Unknown,
}

/// The command a line stands for: its text without surrounding white space
/// must be a single letter among P, R, Q, O and C, in either case.
pub open spec fn command_of(line: Seq<char>) -> Command {
    let t = trimmed(line);
    if t.len() != 1 {
        Command::Unknown
    } else if t[0] == 'p' || t[0] == 'P' {
        Command::Pause
    } else if t[0] == 'r' || t[0] == 'R' {
        Command::Resume
    } else if t[0] == 'q' || t[0] == 'Q' {
        Command::Stop
    } else if t[0] == 'o' || t[0] == 'O' {
        Command::Offline
    } else if t[0] == 'c' || t[0] == 'C' {
        Command::Online
    } else {
        Command::Unknown
    }
}

/// Reads a command line typed during playback.
pub fn parse_command(line: &str) -> (r: Command)
    ensures
        r == command_of(line@),
{
    let t = trim(&chars_of(line));
    if t.len() != 1 {
        Command::Unknown
    } else if t[0] == 'p' || t[0] == 'P' {
        Command::Pause
    } else if t[0] == 'r' || t[0] == 'R' {
        Command::Resume
    } else if t[0] == 'q' || t[0] == 'Q' {
        Command::Stop
    } else if t[0] == 'o' || t[0] == 'O' {
        Command::Offline
    } else if t[0] == 'c' || t[0] == 'C' {
        Command::Online
    } else {
        Command::Unknown
    }
}

pub open spec fn is_digit(c: char) -> bool {
    '0' <= c && c <= '9'
}

/// The value of a string of decimal digits.
pub open spec fn decimal_value(s: Seq<char>) -> nat
    decreases s.len(),
{
    if s.len() == 0 {
        0
    } else {
        decimal_value(s.drop_last()) * 10 + ((s.last() as u32) - ('0' as u32)) as nat
    }
}

/// The digits of an unsigned number: an optional plus sign comes off.
pub open spec fn unsigned_digits(t: Seq<char>) -> Seq<char> {
    if t.len() > 0 && t[0] == '+' {
        t.drop_first()
    } else {
        t
    }
}

/// The track number that a selection line names among `count` tracks: the
/// line, without surrounding white space, is an unsigned decimal number
/// between 1 and `count`.
pub open spec fn choice_of(input: Seq<char>, count: nat) -> Option<nat> {
    let d = unsigned_digits(trimmed(input));
    if d.len() > 0 && (forall|i: int| 0 <= i < d.len() ==> is_digit(#[trigger] d[i])) && 1
        <= decimal_value(d) <= count {
        Some(decimal_value(d))
    } else {
        None
    }
}

proof fn lemma_value_grows(s: Seq<char>, k: int)
    requires
        0 <= k <= s.len(),
        forall|i: int| 0 <= i < s.len() ==> is_digit(#[trigger] s[i]),
    ensures
        decimal_value(s.subrange(0, k)) <= decimal_value(s),
    decreases s.len() - k,
{
    if k < s.len() {
        let p = s.subrange(0, k + 1);
        assert(p.drop_last() =~= s.subrange(0, k));
        assert(is_digit(p.last()));
        lemma_value_grows(s, k + 1);
    } else {
        assert(s.subrange(0, k) =~= s);
    }
}

/// Reads the selection line: the 1-based number of a track among `count`,
/// or `None` for anything else (not a number, zero, too large, empty).
pub fn parse_choice(input: &str, count: usize) -> (r: Option<usize>)
    ensures
        match choice_of(input@, count as nat) {
            Some(v) => r == Some(v as usize),
            None => r is None,
        },
{
    let t = trim(&chars_of(input));
    let start: usize = if t.len() > 0 && t[0] == '+' {
        1
    } else {
        0
    };
    let ghost d = unsigned_digits(t@);
    assert(d =~= t@.subrange(start as int, t@.len() as int));
    if start >= t.len() {
        return None;
    }
    let mut acc: usize = 0;
    let mut k: usize = start;
    while k < t.len()
        invariant
            start <= k <= t@.len(),
            d == t@.subrange(start as int, t@.len() as int),
            d == unsigned_digits(t@),
            t@ == trimmed(input@),
            acc as nat == decimal_value(d.subrange(0, k - start)),
            acc <= count,
            forall|i: int| 0 <= i < k - start ==> is_digit(#[trigger] d[i]),
        decreases t@.len() - k,
    {
        let c = t[k];
        if !('0' <= c && c <= '9') {
            assert(d[k - start] == c);
            assert(!is_digit(d[k - start]));
            return None;
        }
        assert(d.subrange(0, k + 1 - start).drop_last() =~= d.subrange(0, k - start));
        let next: u128 = (acc as u128) * 10 + ((c as u32) - ('0' as u32)) as u128;
        if next > count as u128 {
            proof {
                let p = d.subrange(0, k + 1 - start);
                assert(p.last() == c);
                assert(decimal_value(p) == next);
                if forall|i: int| 0 <= i < d.len() ==> is_digit(#[trigger] d[i]) {
                    lemma_value_grows(d, k + 1 - start);
                }
            }
            return None;
        }
        acc = next as usize;
        k = k + 1;
    }
    assert(d.subrange(0, k - start) =~= d);
    if acc == 0 {
        None
    } else {
        Some(acc)
    }
}

/// Where the session stands: choosing a track, playing it (online or
/// offline), stopped by the user, or finished because the track ran out.
#[derive(Debug, Clone, Copy, PartialEq, Eq, Structural)]
pub enum Phase {
    Selecting,
    Playing { offline: bool },
    Stopped,
    Finished,
}

/// What the session asks of the playback handle.
#[derive(Debug, Clone, Copy, PartialEq, Eq, Structural)]
pub enum Action {
    Nothing,
    Pause,
    Resume,
    Stop,
}

/// What the session tells the user.
#[derive(Debug, Clone, Copy, PartialEq, Eq, Structural)]
pub enum Notice {
    Paused,
    Resumed,
    ResumeRejected,
    Stopped,
    WentOffline,
    WentOnline,
    StillOnline,
    UnknownCommand,
    Done,
}

/// The line shown for each notice.
pub open spec fn notice_line(n: Notice) -> Seq<char> {
    match n {
        Notice::Paused => "Song paused"@,
        Notice::Resumed => "Song resumed"@,
        Notice::ResumeRejected => "Cant resume while offline"@,
        Notice::Stopped => "Song stopped"@,
        Notice::WentOffline => "Offline: music paused"@,
        Notice::WentOnline => "Online: music resumed"@,
        Notice::StillOnline => "online"@,
        Notice::UnknownCommand => "Unknown command. Use P, R, Q, O or C."@,
        Notice::Done => "Song is done."@,
    }
}

impl Notice {
    /// The line to show the user.
    pub fn text(&self) -> (r: &'static str)
        ensures
            r@ == notice_line(*self),
    {
        match self {
            Notice::Paused => "Song paused",
            Notice::Resumed => "Song resumed",
            Notice::ResumeRejected => "Cant resume while offline",
            Notice::Stopped => "Song stopped",
            Notice::WentOffline => "Offline: music paused",
            Notice::WentOnline => "Online: music resumed",
            Notice::StillOnline => "online",
            Notice::UnknownCommand => "Unknown command. Use P, R, Q, O or C.",
            Notice::Done => "Song is done.",
        }
    }
}

/// The answer to one command: the action on the handle and the notice, if any.
#[derive(Debug, Clone, Copy, PartialEq, Eq, Structural)]
pub struct Reply {
    pub action: Action,
    pub notice: Option<Notice>,
}

/// The session: its phase, and whether the playback handle was last told to
/// pause (true) or to play (false).
#[derive(Debug, Clone, Copy, PartialEq, Eq, Structural)]
pub struct Session {
    pub phase: Phase,
    pub handle_paused: bool,
}

/// The reply to `c` in the given mode, as the transport table has it.
pub open spec fn reply_to(offline: bool, c: Command) -> Reply {
    match c {
        Command::Pause => Reply { action: Action::Pause, notice: Some(Notice::Paused) },
        Command::Resume => if offline {
            Reply { action: Action::Nothing, notice: Some(Notice::ResumeRejected) }
        } else {
            Reply { action: Action::Resume, notice: Some(Notice::Resumed) }
        },
        Command::Stop => Reply { action: Action::Stop, notice: Some(Notice::Stopped) },
        Command::Offline => if offline {
            Reply { action: Action::Nothing, notice: None }
        } else {
            Reply { action: Action::Pause, notice: Some(Notice::WentOffline) }
        },
        Command::Online => if offline {
            Reply { action: Action::Resume, notice: Some(Notice::WentOnline) }
        } else {
            Reply { action: Action::Nothing, notice: Some(Notice::StillOnline) }
        },
        Command::Unknown => Reply { action: Action::Nothing, notice: Some(Notice::UnknownCommand) },
    }
}

/// The phase after `c` in the given mode.
pub open spec fn phase_after(offline: bool, c: Command) -> Phase {
    match c {
        Command::Stop => Phase::Stopped,
        Command::Offline => Phase::Playing { offline: true },
        Command::Online => Phase::Playing { offline: false },
        _ => Phase::Playing { offline },
    }
}

/// The handle's pause record after an action on it.
pub open spec fn paused_after(paused: bool, a: Action) -> bool {
    match a {
        Action::Pause => true,
        Action::Resume => false,
        _ => paused,
    }
}

/// One command applied to a session: the next session and the reply. Outside
/// playback commands change nothing.
pub open spec fn step(s: Session, c: Command) -> (Session, Reply) {
    match s.phase {
        Phase::Playing { offline } => {
            let r = reply_to(offline, c);
            (Session { phase: phase_after(offline, c), handle_paused: paused_after(s.handle_paused, r.action) }, r)
        },
        _ => (s, Reply { action: Action::Nothing, notice: None }),
    }
}

/// The session as playback begins: online, the handle playing.
pub open spec fn started() -> Session {
    Session { phase: Phase::Playing { offline: false }, handle_paused: false }
}

/// The session after a run of commands; once playback has ended the rest are
/// not read.
pub open spec fn run(s: Session, cmds: Seq<Command>) -> Session
    decreases cmds.len(),
{
    if cmds.len() > 0 && s.phase is Playing {
        run(step(s, cmds[0]).0, cmds.drop_first())
    } else {
        s
    }
}

/// Pausing twice from online playback leaves the session online with the
/// handle paused after each command, and both answers are the plain pause.
pub proof fn pause_twice_stays_paused(s: Session)
    requires
        s.phase == (Phase::Playing { offline: false }),
    ensures
        ({
            let (s1, r1) = step(s, Command::Pause);
            let (s2, r2) = step(s1, Command::Pause);
            &&& s1.phase == s.phase && s1.handle_paused
            &&& s2.phase == s.phase && s2.handle_paused
            &&& r1 == (Reply { action: Action::Pause, notice: Some(Notice::Paused) })
            &&& r2 == r1
        }),
{
}

/// While offline, a resume changes nothing and is answered by the rejection
/// notice.
pub proof fn resume_offline_is_rejected(s: Session)
    requires
        s.phase == (Phase::Playing { offline: true }),
    ensures
        step(s, Command::Resume).0 == s,
        step(s, Command::Resume).1 == (Reply {
            action: Action::Nothing,
            notice: Some(Notice::ResumeRejected),
        }),
{
}

/// From any playing state, every command leads to a playing state again, or,
/// for the stop command alone, to the stopped state.
pub proof fn every_command_is_defined(s: Session, c: Command)
    requires
        s.phase is Playing,
    ensures
        c == Command::Stop ==> step(s, c).0.phase == Phase::Stopped,
        c != Command::Stop ==> step(s, c).0.phase is Playing,
{
}

/// Every session reached from the start of playback by any run of commands is
/// playing, or stopped by the user.
pub proof fn runs_stay_in_session(s: Session, cmds: Seq<Command>)
    requires
        s.phase is Playing || s.phase == Phase::Stopped,
    ensures
        run(s, cmds).phase is Playing || run(s, cmds).phase == Phase::Stopped,
    decreases cmds.len(),
{
    if cmds.len() > 0 && s.phase is Playing {
        every_command_is_defined(s, cmds[0]);
        runs_stay_in_session(step(s, cmds[0]).0, cmds.drop_first());
    }
}

/// The same, from the start of playback.
pub proof fn runs_from_start_stay_in_session(cmds: Seq<Command>)
    ensures
        run(started(), cmds).phase is Playing || run(started(), cmds).phase == Phase::Stopped,
{
    runs_stay_in_session(started(), cmds);
}

impl Session {
    /// A session choosing its track.
    pub fn new() -> (r: Session)
        ensures
            r.phase == Phase::Selecting,
            !r.handle_paused,
    {
        Session { phase: Phase::Selecting, handle_paused: false }
    }

    /// Playback of the chosen track has begun.
    pub fn start(&mut self)
        requires
            old(self).phase == Phase::Selecting,
        ensures
            *final(self) == started(),
    {
        self.phase = Phase::Playing { offline: false };
        self.handle_paused = false;
    }

    /// Applies one command during playback and says what the handle must do
    /// and what to tell the user.
    pub fn handle(&mut self, c: Command) -> (r: Reply)
        requires
            old(self).phase is Playing,
        ensures
            (*final(self), r) == step(*old(self), c),
    {
        let offline = match self.phase {
            Phase::Playing { offline } => offline,
            _ => false,
        };
        let r = match c {
            Command::Pause => Reply { action: Action::Pause, notice: Some(Notice::Paused) },
            Command::Resume => if offline {
                Reply { action: Action::Nothing, notice: Some(Notice::ResumeRejected) }
            } else {
                Reply { action: Action::Resume, notice: Some(Notice::Resumed) }
            },
            Command::Stop => Reply { action: Action::Stop, notice: Some(Notice::Stopped) },
            Command::Offline => if offline {
                Reply { action: Action::Nothing, notice: None }
            } else {
                Reply { action: Action::Pause, notice: Some(Notice::WentOffline) }
            },
            Command::Online => if offline {
                Reply { action: Action::Resume, notice: Some(Notice::WentOnline) }
            } else {
                Reply { action: Action::Nothing, notice: Some(Notice::StillOnline) }
            },
            Command::Unknown => Reply {
                action: Action::Nothing,
                notice: Some(Notice::UnknownCommand),
            },
        };
        self.phase = match c {
            Command::Stop => Phase::Stopped,
            Command::Offline => Phase::Playing { offline: true },
            Command::Online => Phase::Playing { offline: false },
            _ => Phase::Playing { offline },
        };
        match r.action {
            Action::Pause => { self.handle_paused = true; },
            Action::Resume => { self.handle_paused = false; },
            _ => {},
        }
        r
    }

    /// The check after each command: when the handle's queue has run empty
    /// the track is finished, in either mode.
    pub fn poll(&mut self, queue_empty: bool) -> (r: Option<Notice>)
        requires
            old(self).phase is Playing,
        ensures
            queue_empty ==> final(self).phase == Phase::Finished && r == Some(Notice::Done),
            !queue_empty ==> final(self).phase == old(self).phase && r is None,
            final(self).handle_paused == old(self).handle_paused,
    {
        if queue_empty {
            self.phase = Phase::Finished;
            Some(Notice::Done)
        } else {
            None
        }
    }
}

} // verus!
