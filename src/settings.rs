//! Per-sandbox settings: network mode and capabilities.
use vstd::prelude::*;
use crate::text::{trim, trim_end_spec, trim_start_spec};
use crate::errors::LitterboxError;

verus! {

/// How a sandbox is networked.
#[derive(PartialEq, Eq, Structural, Clone, Copy, Debug)]
pub enum NetworkMode {
    Pasta,
    PastaWithForwarding,
    Host,
}

impl NetworkMode {
    pub open spec fn spec_name(self) -> Seq<char> {
        match self {
            NetworkMode::Pasta => "Pasta (isolated user-mode networking stack)"@,
            NetworkMode::PastaWithForwarding => "Pasta with port forwarding (host to container)"@,
            NetworkMode::Host => "Host networking (i.e. NO ISOLATION)"@,
        }
    }

    pub open spec fn spec_podman_args(self) -> Seq<char> {
        match self {
            NetworkMode::Pasta => "pasta"@,
            NetworkMode::PastaWithForwarding => "pasta:-t,auto,-u,auto"@,
            NetworkMode::Host => "host"@,
        }
    }

    /// The description shown when choosing a mode.
    pub fn name(&self) -> (r: &'static str)
        ensures
            r@ == self.spec_name(),
    {
        match self {
            NetworkMode::Pasta => "Pasta (isolated user-mode networking stack)",
            NetworkMode::PastaWithForwarding => "Pasta with port forwarding (host to container)",
            NetworkMode::Host => "Host networking (i.e. NO ISOLATION)",
        }
    }

    /// The value of the runtime's `--network` option.
    pub fn podman_args(&self) -> (r: &'static str)
        ensures
            r@ == self.spec_podman_args(),
    {
        match self {
            NetworkMode::Pasta => "pasta",
            NetworkMode::PastaWithForwarding => "pasta:-t,auto,-u,auto",
            NetworkMode::Host => "host",
        }
    }
}

/// The settings format written today.
pub const SETTINGS_VERSION: u32 = 1;

/// The settings of one sandbox.
#[derive(PartialEq, Eq, Structural, Clone, Copy, Debug)]
pub struct LitterboxSettings {
    /// Version of the stored format, for later migrations.
    pub version: u32,
    pub network_mode: NetworkMode,
    pub support_ping: bool,
    pub support_tuntap: bool,
    pub packet_forwarding: bool,
    pub enable_kvm: bool,
    pub expose_pipewire: bool,
    /// Added later: absent from older files, where it reads as `false`.
    pub keep_groups: bool,
    /// Added later: absent from older files, where it reads as `false`.
    pub expose_kfd: bool,
    /// Added later: absent from older files, where it reads as `false`.
    pub unconfine_seccomp: bool,
    /// Added later: absent from older files, where it reads as `None`.
    pub shm_size_gb: Option<u32>,
}

/// The value of a boolean setting that an older file lacks.
pub fn default_false() -> (r: bool)
    ensures
        !r,
{
    false
}

impl NetworkMode {
    /// The mode's place in the list offered to the user.
    pub fn index(&self) -> (r: usize)
        ensures
            r == match self {
                NetworkMode::Pasta => 0usize,
                NetworkMode::PastaWithForwarding => 1usize,
                NetworkMode::Host => 2usize,
            },
    {
        match self {
            NetworkMode::Pasta => 0,
            NetworkMode::PastaWithForwarding => 1,
            NetworkMode::Host => 2,
        }
    }
}

impl LitterboxSettings {
    /// The answers that the settings questions start at: the existing
    /// settings if there are some, otherwise isolated networking with
    /// everything else off.
    pub fn prompt_defaults(existing: Option<&LitterboxSettings>) -> (r: LitterboxSettings)
        ensures
            existing matches Some(e) ==> r == (LitterboxSettings { version: SETTINGS_VERSION, ..*e }),
            existing is None ==> r == (LitterboxSettings {
                version: SETTINGS_VERSION,
                network_mode: NetworkMode::Pasta,
                support_ping: false,
                support_tuntap: false,
                packet_forwarding: false,
                enable_kvm: false,
                expose_pipewire: false,
                keep_groups: false,
                expose_kfd: false,
                unconfine_seccomp: false,
                shm_size_gb: None,
            }),
    {
        match existing {
            Some(e) => LitterboxSettings { version: SETTINGS_VERSION, ..*e },
            None => LitterboxSettings {
                version: SETTINGS_VERSION,
                network_mode: NetworkMode::Pasta,
                support_ping: false,
                support_tuntap: false,
                packet_forwarding: false,
                enable_kvm: false,
                expose_pipewire: false,
                keep_groups: false,
                expose_kfd: false,
                unconfine_seccomp: false,
                shm_size_gb: None,
            },
        }
    }

    /// Reads the answer to the shared-memory question: blank means the
    /// runtime's default, otherwise a whole number of gigabytes.
    pub fn parse_shm_size(input: &str) -> (r: Result<Option<u32>, LitterboxError>)
        ensures
            trimmed(input@).len() == 0 ==> r matches Ok(None),
            trimmed(input@).len() > 0 && parsed_u32(trimmed(input@)) is Some ==> (r matches Ok(
                v,
            ) && v == parsed_u32(trimmed(input@))),
            trimmed(input@).len() > 0 && parsed_u32(trimmed(input@)) is None ==> (r matches Err(
                LitterboxError::InvalidInput(_),
            )),
    {
        let t = trim(input);
        if t.unicode_len() == 0 {
            Ok(None)
        } else {
            match parse_u32(t) {
                Some(v) => Ok(Some(v)),
                None => Err(
                    LitterboxError::InvalidInput(
                        String::from_str("shm_size_gb must be a valid integer"),
                    ),
                ),
            }
        }
    }
}

/// `s` without leading and trailing whitespace.
pub open spec fn trimmed(s: Seq<char>) -> Seq<char> {
    trim_end_spec(trim_start_spec(s))
}

pub open spec fn is_digit(c: char) -> bool {
    '0' as u32 <= c as u32 <= '9' as u32
}

pub open spec fn digit_value(c: char) -> int {
    c as u32 - '0' as u32
}

/// The number that a string of decimal digits writes.
pub open spec fn digits_value(s: Seq<char>) -> int
    decreases s.len(),
{
    if s.len() == 0 {
        0
    } else {
        digits_value(s.drop_last()) * 10 + digit_value(s.last())
    }
}

pub open spec fn all_digits(s: Seq<char>) -> bool {
    forall|i: int| 0 <= i < s.len() ==> is_digit(#[trigger] s[i])
}

/// The unsigned 32-bit number that `s` writes in decimal, with an optional
/// leading `+`: none if a character is not a digit, there is no digit, or
/// the number is too large.
pub open spec fn parsed_u32(s: Seq<char>) -> Option<u32> {
    let body = if s.len() > 0 && s[0] == '+' {
        s.drop_first()
    } else {
        s
    };
    if body.len() > 0 && all_digits(body) && digits_value(body) <= u32::MAX {
        Some(digits_value(body) as u32)
    } else {
        None
    }
}

proof fn lemma_digits_value_grows(s: Seq<char>, k: int)
    requires
        all_digits(s),
        0 <= k <= s.len(),
    ensures
        0 <= digits_value(s.take(k)) <= digits_value(s),
    decreases s.len(),
{
    if k == s.len() {
        assert(s.take(k) =~= s);
        if s.len() > 0 {
            lemma_digits_value_grows(s.drop_last(), s.len() - 1);
            assert(s.drop_last().take(s.len() - 1) =~= s.drop_last());
        }
    } else {
        let init = s.drop_last();
        assert(init.take(k) =~= s.take(k));
        lemma_digits_value_grows(init, k);
    }
}

/// Reads an unsigned 32-bit decimal number, as `parsed_u32` says.
pub fn parse_u32(s: &str) -> (r: Option<u32>)
    ensures
        r == parsed_u32(s@),
{
    let n = s.unicode_len();
    let start: usize = if n > 0 && s.get_char(0) == '+' {
        1
    } else {
        0
    };
    let ghost body = if s@.len() > 0 && s@[0] == '+' {
        s@.drop_first()
    } else {
        s@
    };
    assert(body =~= s@.subrange(start as int, n as int));
    if start >= n {
        return None;
    }
    let mut acc: u64 = 0;
    let mut i: usize = start;
    while i < n
        invariant
            n == s@.len(),
            start <= i <= n,
            body == s@.subrange(start as int, n as int),
            body == (if s@.len() > 0 && s@[0] == '+' {
                s@.drop_first()
            } else {
                s@
            }),
            all_digits(body.take(i - start)),
            acc == digits_value(body.take(i - start)),
            acc <= u32::MAX,
        decreases n - i,
    {
        let c = s.get_char(i);
        let ghost k = i - start;
        assert(body[k] == c);
        assert(body.take(k + 1).drop_last() =~= body.take(k));
        assert(body.take(k + 1).last() == c);
        let code = c as u32;
        if !(48 <= code && code <= 57) {
            assert(!is_digit(body[k]));
            assert(!all_digits(body));
            return None;
        }
        let d = (code - 48) as u64;
        let next = acc * 10 + d;
        assert(digit_value(c) == d);
        assert(digits_value(body.take(k + 1)) == digits_value(body.take(k)) * 10 + digit_value(c));
        assert(forall|j: int| 0 <= j < k + 1 ==> is_digit(#[trigger] body.take(k + 1)[j]));
        if next > u32::MAX as u64 {
            proof {
                if all_digits(body) {
                    lemma_digits_value_grows(body, k + 1);
                }
            }
            return None;
        }
        acc = next;
        i = i + 1;
    }
    assert(body.take(n - start) =~= body);
    Some(acc as u32)
}

} // verus!
