//! The sanitizer capability table: the closed set of platform triples, the
//! instrumentation kinds the nightly compiler offers, and the decision
//! whether a sanitizer is usable on any of the installed platform targets.

use vstd::prelude::*;
use crate::strings::{spec_trim, str_eq, trim, views};

verus! {

broadcast use vstd::string::group_string_axioms;

/// A platform triple, restricted to the closed set that at least one
/// sanitizer supports.  Any other installed target parses to `Unknown`.
#[derive(Clone, Copy, Debug, PartialEq, Eq, Structural)]
pub enum Target {
    Aarch64AppleDarwin,
    Aarch64LinuxAndroid,
    Aarch64UnknownFuchsia,
    Aarch64UnknownLinuxGnu,
    X8664AppleDarwin,
    X8664LinuxAndroid,
    X8664UnknownFuchsia,
    X8664UnknownFreebsd,
    X8664UnknownLinuxGnu,
    Unknown,
}

/// The canonical string of each triple; `Unknown` has none and renders
/// as the empty string.
pub open spec fn spec_target_str(t: Target) -> Seq<char> {
    match t {
        Target::Aarch64AppleDarwin => "aarch64-apple-darwin"@,
        Target::Aarch64LinuxAndroid => "aarch64-linux-android"@,
        Target::Aarch64UnknownFuchsia => "aarch64-unknown-fuchsia"@,
        Target::Aarch64UnknownLinuxGnu => "aarch64-unknown-linux-gnu"@,
        Target::X8664AppleDarwin => "x86_64-apple-darwin"@,
        Target::X8664LinuxAndroid => "x86_64-linux-android"@,
        Target::X8664UnknownFuchsia => "x86_64-unknown-fuchsia"@,
        Target::X8664UnknownFreebsd => "x86_64-unknown-freebsd"@,
        Target::X8664UnknownLinuxGnu => "x86_64-unknown-linux-gnu"@,
        Target::Unknown => ""@,
    }
}

/// Which triple, if any, the character sequence `s` names.
pub open spec fn spec_parse_target(s: Seq<char>) -> Option<Target> {
    if s == "aarch64-apple-darwin"@ {
        Some(Target::Aarch64AppleDarwin)
    } else if s == "aarch64-linux-android"@ {
        Some(Target::Aarch64LinuxAndroid)
    } else if s == "aarch64-unknown-fuchsia"@ {
        Some(Target::Aarch64UnknownFuchsia)
    } else if s == "aarch64-unknown-linux-gnu"@ {
        Some(Target::Aarch64UnknownLinuxGnu)
    } else if s == "x86_64-apple-darwin"@ {
        Some(Target::X8664AppleDarwin)
    } else if s == "x86_64-linux-android"@ {
        Some(Target::X8664LinuxAndroid)
    } else if s == "x86_64-unknown-fuchsia"@ {
        Some(Target::X8664UnknownFuchsia)
    } else if s == "x86_64-unknown-freebsd"@ {
        Some(Target::X8664UnknownFreebsd)
    } else if s == "x86_64-unknown-linux-gnu"@ {
        Some(Target::X8664UnknownLinuxGnu)
    } else {
        None
    }
}

/// Every triple of the closed set parses back from its canonical string.
pub proof fn lemma_target_round_trip(t: Target)
    requires
        t != Target::Unknown,
    ensures
        spec_parse_target(spec_target_str(t)) == Some(t),
{
    reveal_strlit("aarch64-apple-darwin");
    reveal_strlit("aarch64-linux-android");
    reveal_strlit("aarch64-unknown-fuchsia");
    reveal_strlit("aarch64-unknown-linux-gnu");
    reveal_strlit("x86_64-apple-darwin");
    reveal_strlit("x86_64-linux-android");
    reveal_strlit("x86_64-unknown-fuchsia");
    reveal_strlit("x86_64-unknown-freebsd");
    reveal_strlit("x86_64-unknown-linux-gnu");
    assert(("aarch64-apple-darwin"@).len() == 20);
    assert(("aarch64-linux-android"@).len() == 21);
    assert(("aarch64-unknown-fuchsia"@).len() == 23);
    assert(("aarch64-unknown-linux-gnu"@).len() == 25);
    assert(("x86_64-apple-darwin"@).len() == 19);
    assert(("x86_64-linux-android"@).len() == 20);
    assert(("x86_64-unknown-fuchsia"@).len() == 22);
    assert(("x86_64-unknown-freebsd"@).len() == 22);
    assert(("x86_64-unknown-linux-gnu"@).len() == 24);
    assert(("aarch64-apple-darwin"@)[0] != ("x86_64-linux-android"@)[0]);
    assert(("x86_64-unknown-fuchsia"@)[16] != ("x86_64-unknown-freebsd"@)[16]);
}

/// Parsing succeeds only on a canonical string, and never yields `Unknown`.
pub proof fn lemma_parse_is_canonical(s: Seq<char>, t: Target)
    requires
        spec_parse_target(s) == Some(t),
    ensures
        s == spec_target_str(t),
        t != Target::Unknown,
{
}

impl Target {
    /// Parses a platform triple; anything outside the closed set is `None`.
    pub fn from_str(s: &str) -> (r: Option<Target>)
        ensures
            r == spec_parse_target(s@),
    {
        if str_eq(s, "aarch64-apple-darwin") {
            Some(Target::Aarch64AppleDarwin)
        } else if str_eq(s, "aarch64-linux-android") {
            Some(Target::Aarch64LinuxAndroid)
        } else if str_eq(s, "aarch64-unknown-fuchsia") {
            Some(Target::Aarch64UnknownFuchsia)
        } else if str_eq(s, "aarch64-unknown-linux-gnu") {
            Some(Target::Aarch64UnknownLinuxGnu)
        } else if str_eq(s, "x86_64-apple-darwin") {
            Some(Target::X8664AppleDarwin)
        } else if str_eq(s, "x86_64-linux-android") {
            Some(Target::X8664LinuxAndroid)
        } else if str_eq(s, "x86_64-unknown-fuchsia") {
            Some(Target::X8664UnknownFuchsia)
        } else if str_eq(s, "x86_64-unknown-freebsd") {
            Some(Target::X8664UnknownFreebsd)
        } else if str_eq(s, "x86_64-unknown-linux-gnu") {
            Some(Target::X8664UnknownLinuxGnu)
        } else {
            None
        }
    }

    /// The canonical string of the triple; empty for `Unknown`.
    pub fn as_str(&self) -> (r: &'static str)
        ensures
            r@ == spec_target_str(*self),
    {
        match self {
            Target::Aarch64AppleDarwin => "aarch64-apple-darwin",
            Target::Aarch64LinuxAndroid => "aarch64-linux-android",
            Target::Aarch64UnknownFuchsia => "aarch64-unknown-fuchsia",
            Target::Aarch64UnknownLinuxGnu => "aarch64-unknown-linux-gnu",
            Target::X8664AppleDarwin => "x86_64-apple-darwin",
            Target::X8664LinuxAndroid => "x86_64-linux-android",
            Target::X8664UnknownFuchsia => "x86_64-unknown-fuchsia",
            Target::X8664UnknownFreebsd => "x86_64-unknown-freebsd",
            Target::X8664UnknownLinuxGnu => "x86_64-unknown-linux-gnu",
            Target::Unknown => "",
        }
    }
}

/// The instrumentation kinds the nightly compiler offers.
#[derive(Clone, Copy, Debug, PartialEq, Eq, Structural)]
pub enum Sanitizer {
    Address,
    CFI,
    HWAddress,
    KCFI,
    Leak,
    Memory,
    MemTag,
    SafeStack,
    ShadowCallStack,
    Thread,
}

/// The human-readable name of each sanitizer.
pub open spec fn spec_sanitizer_name(s: Sanitizer) -> Seq<char> {
    match s {
        Sanitizer::Address => "AddressSanitizer"@,
        Sanitizer::CFI => "ControlFlowIntegrity"@,
        Sanitizer::HWAddress => "HWAddressSanitizer"@,
        Sanitizer::KCFI => "KernelControlFlowIntegrity"@,
        Sanitizer::Leak => "LeakSanitizer"@,
        Sanitizer::Memory => "MemorySanitizer"@,
        Sanitizer::MemTag => "MemTagSanitizer"@,
        Sanitizer::SafeStack => "SafeStack"@,
        Sanitizer::ShadowCallStack => "ShadowCallStack"@,
        Sanitizer::Thread => "ThreadSanitizer"@,
    }
}

/// The compiler flags that switch each sanitizer on.
pub open spec fn spec_sanitizer_flags(s: Sanitizer) -> Seq<char> {
    match s {
        Sanitizer::Address => "-Zsanitizer=address"@,
        Sanitizer::CFI => "-Zsanitizer=cfi -Clto"@,
        Sanitizer::HWAddress => "-Zsanitizer=hwaddress -Ctarget-feature=+tagged-globals"@,
        Sanitizer::KCFI => "-Zsanitizer=kcfi"@,
        Sanitizer::Leak => "-Zsanitizer=leak"@,
        Sanitizer::Memory => "-Zsanitizer=memory -Zsanitizer-memory-track-origins"@,
        Sanitizer::MemTag => "--Zsanitizer=memtag -Ctarget-feature=\"+mte\""@,
        Sanitizer::SafeStack => "-Zsanitizer=safestack"@,
        Sanitizer::ShadowCallStack => "-Zsanitizer=shadow-call-stack"@,
        Sanitizer::Thread => "-Zsanitizer=thread"@,
    }
}

/// The extra command-line tokens a sanitizer needs; only control-flow
/// integrity asks for a rebuilt standard library on its one platform.
pub open spec fn spec_sanitizer_cargo_features(s: Sanitizer) -> Seq<Seq<char>> {
    match s {
        Sanitizer::CFI => seq!["-Zbuild-std"@, "--target x86_64-unknown-linux-gnu"@],
        _ => Seq::empty(),
    }
}

/// The platform triples on which each sanitizer is supported.
pub open spec fn spec_supported_targets(s: Sanitizer) -> Seq<Target> {
    match s {
        Sanitizer::Address => seq![
            Target::Aarch64AppleDarwin,
            Target::Aarch64UnknownFuchsia,
            Target::Aarch64UnknownLinuxGnu,
            Target::X8664AppleDarwin,
            Target::X8664UnknownFuchsia,
            Target::X8664UnknownFreebsd,
            Target::X8664UnknownLinuxGnu,
        ],
        Sanitizer::CFI => seq![Target::X8664UnknownLinuxGnu],
        Sanitizer::HWAddress => seq![Target::Aarch64LinuxAndroid, Target::Aarch64UnknownLinuxGnu],
        Sanitizer::KCFI => seq![
            Target::Aarch64LinuxAndroid,
            Target::Aarch64UnknownLinuxGnu,
            Target::X8664LinuxAndroid,
            Target::X8664UnknownLinuxGnu,
        ],
        Sanitizer::Leak => seq![
            Target::Aarch64AppleDarwin,
            Target::Aarch64UnknownLinuxGnu,
            Target::X8664AppleDarwin,
            Target::X8664UnknownLinuxGnu,
        ],
        Sanitizer::Memory => seq![
            Target::Aarch64UnknownLinuxGnu,
            Target::X8664UnknownFreebsd,
            Target::X8664UnknownLinuxGnu,
        ],
        Sanitizer::MemTag => seq![Target::Aarch64LinuxAndroid, Target::Aarch64UnknownLinuxGnu],
        Sanitizer::SafeStack => seq![Target::X8664UnknownLinuxGnu],
        Sanitizer::ShadowCallStack => seq![Target::Aarch64LinuxAndroid],
        Sanitizer::Thread => seq![
            Target::Aarch64AppleDarwin,
            Target::Aarch64UnknownLinuxGnu,
            Target::X8664AppleDarwin,
            Target::X8664UnknownFreebsd,
            Target::X8664UnknownLinuxGnu,
        ],
    }
}

/// One installed-target line, trimmed, names a triple the sanitizer
/// supports.  Lines outside the closed set parse to no triple and match
/// nothing.
pub open spec fn spec_line_matches(s: Sanitizer, line: Seq<char>) -> bool {
    match spec_parse_target(spec_trim(line)) {
        Some(t) => spec_supported_targets(s).contains(t),
        None => false,
    }
}

/// The sanitizer is usable: some installed-target line names a supported
/// triple.
pub open spec fn spec_is_supported(s: Sanitizer, installed: Seq<Seq<char>>) -> bool {
    exists|i: int| 0 <= i < installed.len() && spec_line_matches(s, installed[i])
}

impl Sanitizer {
    /// The human-readable name of the sanitizer.
    pub fn name(&self) -> (r: &'static str)
        ensures
            r@ == spec_sanitizer_name(*self),
    {
        match self {
            Sanitizer::Address => "AddressSanitizer",
            Sanitizer::CFI => "ControlFlowIntegrity",
            Sanitizer::HWAddress => "HWAddressSanitizer",
            Sanitizer::KCFI => "KernelControlFlowIntegrity",
            Sanitizer::Leak => "LeakSanitizer",
            Sanitizer::Memory => "MemorySanitizer",
            Sanitizer::MemTag => "MemTagSanitizer",
            Sanitizer::SafeStack => "SafeStack",
            Sanitizer::ShadowCallStack => "ShadowCallStack",
            Sanitizer::Thread => "ThreadSanitizer",
        }
    }

    /// The compiler flags that switch the sanitizer on.
    pub fn flags(&self) -> (r: &'static str)
        ensures
            r@ == spec_sanitizer_flags(*self),
    {
        match self {
            Sanitizer::Address => "-Zsanitizer=address",
            Sanitizer::CFI => "-Zsanitizer=cfi -Clto",
            Sanitizer::HWAddress => "-Zsanitizer=hwaddress -Ctarget-feature=+tagged-globals",
            Sanitizer::KCFI => "-Zsanitizer=kcfi",
            Sanitizer::Leak => "-Zsanitizer=leak",
            Sanitizer::Memory => "-Zsanitizer=memory -Zsanitizer-memory-track-origins",
            Sanitizer::MemTag => "--Zsanitizer=memtag -Ctarget-feature=\"+mte\"",
            Sanitizer::SafeStack => "-Zsanitizer=safestack",
            Sanitizer::ShadowCallStack => "-Zsanitizer=shadow-call-stack",
            Sanitizer::Thread => "-Zsanitizer=thread",
        }
    }

    /// The extra command-line tokens the sanitizer needs.
    pub fn cargo_features(&self) -> (r: Vec<&'static str>)
        ensures
            r@.map_values(|t: &'static str| t@) == spec_sanitizer_cargo_features(*self),
    {
        let r: Vec<&'static str> = match self {
            Sanitizer::CFI => vec!["-Zbuild-std", "--target x86_64-unknown-linux-gnu"],
            _ => Vec::new(),
        };
        proof {
            assert(r@.map_values(|t: &'static str| t@) =~= spec_sanitizer_cargo_features(*self));
        }
        r
    }

    /// The platform triples on which the sanitizer is supported.
    pub fn supported_targets(&self) -> (r: Vec<Target>)
        ensures
            r@ == spec_supported_targets(*self),
    {
        let r: Vec<Target> = match self {
            Sanitizer::Address => vec![
                Target::Aarch64AppleDarwin,
                Target::Aarch64UnknownFuchsia,
                Target::Aarch64UnknownLinuxGnu,
                Target::X8664AppleDarwin,
                Target::X8664UnknownFuchsia,
                Target::X8664UnknownFreebsd,
                Target::X8664UnknownLinuxGnu,
            ],
            Sanitizer::CFI => vec![Target::X8664UnknownLinuxGnu],
            Sanitizer::HWAddress => vec![
                Target::Aarch64LinuxAndroid,
                Target::Aarch64UnknownLinuxGnu,
            ],
            Sanitizer::KCFI => vec![
                Target::Aarch64LinuxAndroid,
                Target::Aarch64UnknownLinuxGnu,
                Target::X8664LinuxAndroid,
                Target::X8664UnknownLinuxGnu,
            ],
            Sanitizer::Leak => vec![
                Target::Aarch64AppleDarwin,
                Target::Aarch64UnknownLinuxGnu,
                Target::X8664AppleDarwin,
                Target::X8664UnknownLinuxGnu,
            ],
            Sanitizer::Memory => vec![
                Target::Aarch64UnknownLinuxGnu,
                Target::X8664UnknownFreebsd,
                Target::X8664UnknownLinuxGnu,
            ],
            Sanitizer::MemTag => vec![Target::Aarch64LinuxAndroid, Target::Aarch64UnknownLinuxGnu],
            Sanitizer::SafeStack => vec![Target::X8664UnknownLinuxGnu],
            Sanitizer::ShadowCallStack => vec![Target::Aarch64LinuxAndroid],
            Sanitizer::Thread => vec![
                Target::Aarch64AppleDarwin,
                Target::Aarch64UnknownLinuxGnu,
                Target::X8664AppleDarwin,
                Target::X8664UnknownFreebsd,
                Target::X8664UnknownLinuxGnu,
            ],
        };
        proof {
            assert(r@ =~= spec_supported_targets(*self));
        }
        r
    }

    /// Whether `t` is one of the triples the sanitizer supports.
    fn supports(&self, t: Target) -> (r: bool)
        ensures
            r == spec_supported_targets(*self).contains(t),
    {
        let supported = self.supported_targets();
        let ghost sv = spec_supported_targets(*self);
        let mut j: usize = 0;
        while j < supported.len()
            invariant
                j <= supported@.len(),
                supported@ == sv,
                sv == spec_supported_targets(*self),
                forall|k: int| 0 <= k < j ==> sv[k] != t,
            decreases supported@.len() - j,
        {
            if supported[j] == t {
                proof {
                    assert(sv[j as int] == t);
                    assert(sv.contains(t));
                }
                return true;
            }
            j += 1;
        }
        proof {
            assert(!sv.contains(t));
        }
        false
    }

    /// Whether the sanitizer is supported by any of the installed platform
    /// targets.  Lines that do not name a triple of the closed set — empty,
    /// blank or otherwise unrecognized — are ignored, never an error.
    pub fn is_target_supported(&self, installed_targets: &Vec<String>) -> (r: bool)
        ensures
            r == spec_is_supported(*self, views(installed_targets@)),
    {
        let ghost iv = views(installed_targets@);
        let mut i: usize = 0;
        while i < installed_targets.len()
            invariant
                i <= installed_targets@.len(),
                iv == views(installed_targets@),
                iv.len() == installed_targets@.len(),
                forall|k: int| 0 <= k < i ==> !spec_line_matches(*self, iv[k]),
            decreases installed_targets@.len() - i,
        {
            let line = trim(installed_targets[i].as_str());
            proof {
                assert(iv[i as int] == installed_targets@[i as int]@);
            }
            let matched = match Target::from_str(line) {
                Some(t) => self.supports(t),
                None => false,
            };
            if matched {
                proof {
                    assert(spec_line_matches(*self, iv[i as int]));
                    assert(spec_is_supported(*self, iv));
                }
                return true;
            }
            i += 1;
        }
        proof {
            assert(!spec_is_supported(*self, iv));
        }
        false
    }
}

/// If every installed line is the canonical string of a triple the
/// sanitizer supports, and there is at least one line, the support check
/// accepts.
pub proof fn lemma_is_supported_on_supported_lines(s: Sanitizer, installed: Seq<Seq<char>>)
    requires
        installed.len() > 0,
        forall|i: int| #![trigger installed[i]]
            0 <= i < installed.len() ==> exists|t: Target|
                #[trigger] spec_supported_targets(s).contains(t) && installed[i]
                    == spec_target_str(t),
    ensures
        spec_is_supported(s, installed),
{
    let t = choose|t: Target|
        #[trigger] spec_supported_targets(s).contains(t) && installed[0] == spec_target_str(t);
    lemma_unknown_never_supported(s);
    assert(t != Target::Unknown);
    lemma_canonical_has_no_space(t);
    crate::strings::lemma_trim_no_space(spec_target_str(t));
    lemma_target_round_trip(t);
    assert(spec_line_matches(s, installed[0]));
}

/// If no installed line, after trimming, is the canonical string of a
/// triple the sanitizer supports, the support check rejects.  This covers
/// empty, blank and garbage lines, and disjoint installed sets.
pub proof fn lemma_not_supported_on_disjoint_lines(s: Sanitizer, installed: Seq<Seq<char>>)
    requires
        forall|i: int, t: Target|
            0 <= i < installed.len() && #[trigger] spec_supported_targets(s).contains(t)
                ==> spec_trim(#[trigger] installed[i]) != spec_target_str(t),
    ensures
        !spec_is_supported(s, installed),
{
    assert forall|i: int| 0 <= i < installed.len() implies !spec_line_matches(s, installed[i]) by {
        if let Some(t) = spec_parse_target(spec_trim(installed[i])) {
            lemma_parse_is_canonical(spec_trim(installed[i]), t);
        }
    }
}

/// `Unknown` stands in no sanitizer's support table.
pub proof fn lemma_unknown_never_supported(s: Sanitizer)
    ensures
        !spec_supported_targets(s).contains(Target::Unknown),
{
}

/// A canonical triple string neither starts nor ends with whitespace, and
/// is non-empty.
proof fn lemma_canonical_has_no_space(t: Target)
    requires
        t != Target::Unknown,
    ensures
        spec_target_str(t).len() > 0,
        !crate::strings::is_space(spec_target_str(t)[0]),
        !crate::strings::is_space(spec_target_str(t).last()),
{
    reveal_strlit("aarch64-apple-darwin");
    reveal_strlit("aarch64-linux-android");
    reveal_strlit("aarch64-unknown-fuchsia");
    reveal_strlit("aarch64-unknown-linux-gnu");
    reveal_strlit("x86_64-apple-darwin");
    reveal_strlit("x86_64-linux-android");
    reveal_strlit("x86_64-unknown-fuchsia");
    reveal_strlit("x86_64-unknown-freebsd");
    reveal_strlit("x86_64-unknown-linux-gnu");
}

} // verus!
