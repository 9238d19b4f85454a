//! The environment helper programs run in, and the result reported for a run.
use vstd::prelude::*;
use vstd::utf8::{decode_utf8, valid_utf8};

use crate::text::{chars_of, str_eq, string_from_chars, trim, trim_str};

verus! {

broadcast use vstd::string::group_string_axioms;

/// The desktop session a command runs in.
pub struct Session {
    pub display: String,
    pub dbus_address: Option<String>,
    pub linux_user: String,
}

/// How to run a command.
pub struct ExecOptions {
    pub session: Option<Session>,
    pub timeout_ms: u64,
}

impl Default for ExecOptions {
    /// No session, and a one-minute time limit.
    fn default() -> (r: Self)
        ensures
            r.session is None,
            r.timeout_ms == 60000,
    {
        ExecOptions { session: None, timeout_ms: 60000 }
    }
}

/// What a command run reports.
#[derive(Debug)]
pub struct CommandResult {
    pub stdout: String,
    pub stderr: String,
    pub exit_code: i32,
}

/// The environment a list of variable assignments makes, later ones winning.
pub open spec fn env_map(pairs: Seq<(String, String)>) -> Map<Seq<char>, Seq<char>>
    decreases pairs.len(),
{
    if pairs.len() == 0 {
        Map::empty()
    } else {
        env_map(pairs.drop_last()).insert(pairs.last().0@, pairs.last().1@)
    }
}

/// The environment of a command: the inherited one with accessibility turned
/// on for Qt; inside a session its display, bus address (empty when unknown)
/// and home directory; outside one, display `:99` unless one is inherited.
pub open spec fn command_env_spec(
    base: Map<Seq<char>, Seq<char>>,
    session: Option<Session>,
) -> Map<Seq<char>, Seq<char>> {
    let m = base.insert("QT_ACCESSIBILITY"@, "1"@).insert("QT_LINUX_ACCESSIBILITY_ALWAYS_ON"@, "1"@);
    match session {
        Some(s) => m.insert("DISPLAY"@, s.display@).insert(
            "DBUS_SESSION_BUS_ADDRESS"@,
            match s.dbus_address {
                Some(d) => d@,
                None => Seq::empty(),
            },
        ).insert("HOME"@, "/home/"@ + s.linux_user@),
        None => if m.contains_key("DISPLAY"@) {
            m
        } else {
            m.insert("DISPLAY"@, ":99"@)
        },
    }
}

proof fn lemma_env_has(pairs: Seq<(String, String)>, key: Seq<char>)
    ensures
        env_map(pairs).contains_key(key) <==> exists|i: int|
            0 <= i < pairs.len() && (#[trigger] pairs[i]).0@ == key,
    decreases pairs.len(),
{
    if pairs.len() > 0 {
        let p = pairs.drop_last();
        lemma_env_has(p, key);
        if env_map(pairs).contains_key(key) && pairs.last().0@ != key {
            let i = choose|i: int| 0 <= i < p.len() && (#[trigger] p[i]).0@ == key;
            assert(pairs[i] == p[i]);
        }
        if exists|i: int| 0 <= i < pairs.len() && (#[trigger] pairs[i]).0@ == key {
            let i = choose|i: int| 0 <= i < pairs.len() && (#[trigger] pairs[i]).0@ == key;
            if i < pairs.len() - 1 {
                assert(p[i] == pairs[i]);
            }
        }
    }
}

fn env_push(env: &mut Vec<(String, String)>, key: &str, value: String)
    ensures
        env_map(final(env)@) == env_map(old(env)@).insert(key@, value@),
{
    let ghost before = env@;
    env.push((key.to_owned(), value));
    assert(env@.drop_last() =~= before);
}

fn env_has(env: &Vec<(String, String)>, key: &str) -> (r: bool)
    ensures
        r == env_map(env@).contains_key(key@),
{
    proof {
        lemma_env_has(env@, key@);
    }
    let mut i: usize = 0;
    while i < env.len()
        invariant
            i <= env.len(),
            forall|j: int| 0 <= j < i ==> (#[trigger] env@[j]).0@ != key@,
        decreases env.len() - i,
    {
        if str_eq(env[i].0.as_str(), key) {
            assert(env@[i as int].0@ == key@);
            proof {
                lemma_env_has(env@, key@);
            }
            return true;
        }
        i += 1;
    }
    false
}

fn concat_str(a: &str, b: &str) -> (r: String)
    ensures
        r@ == a@ + b@,
{
    let mut v = chars_of(a);
    let w = chars_of(b);
    let ghost head = v@;
    let mut i: usize = 0;
    while i < w.len()
        invariant
            i <= w.len(),
            v@ == head + w@.take(i as int),
        decreases w.len() - i,
    {
        v.push(w[i]);
        assert(v@ =~= head + w@.take(i + 1));
        i += 1;
    }
    assert(w@.take(w.len() as int) =~= w@);
    string_from_chars(&v)
}

/// The environment a helper program runs with, as assignments applied in
/// order (a later one replaces an earlier one of the same name).
pub fn command_env(inherited: Vec<(String, String)>, session: &Option<Session>) -> (r: Vec<
    (String, String),
>)
    ensures
        env_map(r@) == command_env_spec(env_map(inherited@), *session),
{
    let mut env = inherited;
    env_push(&mut env, "QT_ACCESSIBILITY", "1".to_owned());
    env_push(&mut env, "QT_LINUX_ACCESSIBILITY_ALWAYS_ON", "1".to_owned());
    match session {
        Some(s) => {
            env_push(&mut env, "DISPLAY", s.display.clone());
            let bus = match &s.dbus_address {
                Some(d) => d.clone(),
                None => String::new(),
            };
            env_push(&mut env, "DBUS_SESSION_BUS_ADDRESS", bus);
            env_push(&mut env, "HOME", concat_str("/home/", s.linux_user.as_str()));
        },
        None => {
            if !env_has(&env, "DISPLAY") {
                env_push(&mut env, "DISPLAY", ":99".to_owned());
            }
        },
    }
    env
}

/// What `String::from_utf8_lossy` makes of some bytes: each invalid sequence
/// replaced by U+FFFD.
pub uninterp spec fn utf8_lossy(bytes: Seq<u8>) -> Seq<char>;

/// `String::from_utf8_lossy(bytes).into_owned()`. Its documentation says
/// that valid UTF-8 is decoded as it is and each invalid sequence becomes
/// U+FFFD; the contract states the first part and names the result.
#[verifier::external_body]
fn lossy_text(bytes: &[u8]) -> (r: String)
    ensures
        r@ == utf8_lossy(bytes@),
        valid_utf8(bytes@) ==> r@ == decode_utf8(bytes@),
{
    String::from_utf8_lossy(bytes).into_owned()
}

/// The result of a command that ran to its end: its outputs decoded and
/// trimmed, its exit code (1 when it was ended by a signal).
pub fn finished_result(stdout: &[u8], stderr: &[u8], status_code: Option<i32>) -> (r:
    CommandResult)
    ensures
        r.stdout@ == trim(utf8_lossy(stdout@)),
        r.stderr@ == trim(utf8_lossy(stderr@)),
        r.exit_code == match status_code {
            Some(c) => c,
            None => 1,
        },
{
    let out = lossy_text(stdout);
    let err = lossy_text(stderr);
    let out_trimmed = trim_str(out.as_str());
    let err_trimmed = trim_str(err.as_str());
    CommandResult {
        stdout: string_from_chars(&out_trimmed),
        stderr: string_from_chars(&err_trimmed),
        exit_code: match status_code {
            Some(c) => c,
            None => 1,
        },
    }
}

/// The result of a command that could not be started.
pub fn spawn_failed_result(message: String) -> (r: CommandResult)
    ensures
        r.stdout@ == Seq::<char>::empty(),
        r.stderr@ == message@,
        r.exit_code == 1,
{
    CommandResult { stdout: String::new(), stderr: message, exit_code: 1 }
}

/// The result of a command that ran past its time limit.
pub fn timed_out_result() -> (r: CommandResult)
    ensures
        r.stdout@ == Seq::<char>::empty(),
        r.stderr@ == "Command timed out"@,
        r.exit_code == 1,
{
    CommandResult {
        stdout: String::new(),
        stderr: "Command timed out".to_owned(),
        exit_code: 1,
    }
}

/// Every helper program runs with Qt accessibility on and with a display:
/// the session's, else the inherited one, else `:99`; inside a session it
/// also gets the session's bus address.
pub proof fn law_env_accessible_with_display(
    base: Map<Seq<char>, Seq<char>>,
    session: Option<Session>,
)
    ensures
        command_env_spec(base, session)["QT_ACCESSIBILITY"@] == "1"@,
        command_env_spec(base, session)["QT_LINUX_ACCESSIBILITY_ALWAYS_ON"@] == "1"@,
        command_env_spec(base, session).contains_key("DISPLAY"@),
        session matches Some(s) ==> command_env_spec(base, session)["DISPLAY"@] == s.display@,
        session matches Some(s) ==> command_env_spec(base, session)["DBUS_SESSION_BUS_ADDRESS"@]
            == match s.dbus_address {
            Some(d) => d@,
            None => Seq::<char>::empty(),
        },
        session is None && base.contains_key("DISPLAY"@) ==> command_env_spec(base, session)[
            "DISPLAY"@] == base["DISPLAY"@],
{
    reveal_strlit("QT_ACCESSIBILITY");
    reveal_strlit("QT_LINUX_ACCESSIBILITY_ALWAYS_ON");
    reveal_strlit("DISPLAY");
    reveal_strlit("DBUS_SESSION_BUS_ADDRESS");
    reveal_strlit("HOME");
    assert("QT_ACCESSIBILITY"@.len() != "DISPLAY"@.len());
    assert("QT_ACCESSIBILITY"@.len() != "DBUS_SESSION_BUS_ADDRESS"@.len());
    assert("QT_ACCESSIBILITY"@.len() != "HOME"@.len());
    assert("QT_ACCESSIBILITY"@.len() != "QT_LINUX_ACCESSIBILITY_ALWAYS_ON"@.len());
    assert("QT_LINUX_ACCESSIBILITY_ALWAYS_ON"@.len() != "DISPLAY"@.len());
    assert("QT_LINUX_ACCESSIBILITY_ALWAYS_ON"@.len() != "DBUS_SESSION_BUS_ADDRESS"@.len());
    assert("QT_LINUX_ACCESSIBILITY_ALWAYS_ON"@.len() != "HOME"@.len());
    assert("DISPLAY"@.len() != "DBUS_SESSION_BUS_ADDRESS"@.len());
    assert("DISPLAY"@.len() != "HOME"@.len());
}

} // verus!
