//! Configuration resolution: first-run defaults and metadata for the three
//! persisted settings, fallback reads, and the conditional
//! hardware-acceleration argument.
//!
//! The host's settings storage is modelled by [`SettingsStore`]: one slot per
//! persisted key, each either absent or holding a typed value (a wrongly
//! typed slot is modelled by a value of another variant). The host shell
//! copies the real store into this model before resolution and writes the
//! model back afterwards.

use crate::text::has_substring;
use vstd::prelude::*;

verus! {

/// A value held by one settings slot.
#[derive(Clone, PartialEq, Debug)]
pub enum SettingValue {
    IntValue(i64),
    StringList(Vec<String>),
    BoolValue(bool),
}

/// Mathematical model of a settings value.
pub enum SettingView {
    IntVal(int),
    Strs(Seq<Seq<char>>),
    BoolVal(bool),
}

impl View for SettingValue {
    type V = SettingView;

    open spec fn view(&self) -> SettingView {
        match self {
            SettingValue::IntValue(i) => SettingView::IntVal(*i as int),
            SettingValue::StringList(v) => SettingView::Strs(v.deep_view()),
            SettingValue::BoolValue(b) => SettingView::BoolVal(*b),
        }
    }
}

/// The three persisted settings slots, each absent until first written.
pub struct SettingsStore {
    pub log_level: Option<SettingValue>,
    pub arguments: Option<SettingValue>,
    pub compatibility_mode: Option<SettingValue>,
}

/// Mathematical model of the store.
#[verifier::ext_equal]
pub struct StoreView {
    pub log_level: Option<SettingView>,
    pub arguments: Option<SettingView>,
    pub compatibility_mode: Option<SettingView>,
}

impl View for SettingsStore {
    type V = StoreView;

    open spec fn view(&self) -> StoreView {
        StoreView {
            log_level: match self.log_level {
                Some(v) => Some(v@),
                None => None,
            },
            arguments: match self.arguments {
                Some(v) => Some(v@),
                None => None,
            },
            compatibility_mode: match self.compatibility_mode {
                Some(v) => Some(v@),
                None => None,
            },
        }
    }
}

/// The store after first-run defaults: every absent slot is filled — the log
/// level with 4 (disabled), the arguments with the empty list, the
/// compatibility flag with the platform-detected value. Present slots are
/// left as they are.
pub open spec fn defaulted(s: StoreView, detected: bool) -> StoreView {
    StoreView {
        log_level: if s.log_level is None {
            Some(SettingView::IntVal(4))
        } else {
            s.log_level
        },
        arguments: if s.arguments is None {
            Some(SettingView::Strs(Seq::<Seq<char>>::empty()))
        } else {
            s.arguments
        },
        compatibility_mode: if s.compatibility_mode is None {
            Some(SettingView::BoolVal(detected))
        } else {
            s.compatibility_mode
        },
    }
}

/// The configured log level: the stored integer, or 4 when the slot is
/// absent or wrongly typed.
pub open spec fn read_level(s: StoreView) -> int {
    match s.log_level {
        Some(SettingView::IntVal(i)) => i,
        _ => 4,
    }
}

/// The configured argument list, or empty when absent or wrongly typed.
pub open spec fn read_args(s: StoreView) -> Seq<Seq<char>> {
    match s.arguments {
        Some(SettingView::Strs(a)) => a,
        _ => Seq::<Seq<char>>::empty(),
    }
}

/// The configured compatibility flag, or false when absent or wrongly typed.
pub open spec fn read_compat(s: StoreView) -> bool {
    match s.compatibility_mode {
        Some(SettingView::BoolVal(b)) => b,
        _ => false,
    }
}

/// The substring that signals an argument already selects hardware
/// acceleration.
pub open spec fn marker_text() -> Seq<char> {
    "avcodec-hw"@
}

/// The canonical hardware-acceleration argument appended in compatibility
/// mode.
pub open spec fn hw_argument() -> Seq<char> {
    "--avcodec-hw=any"@
}

/// Whether one argument already carries the hardware-acceleration marker.
pub open spec fn has_marker(s: Seq<char>) -> bool {
    has_substring(s, marker_text())
}

/// Whether any argument in the list carries the marker.
pub open spec fn args_marked(args: Seq<Seq<char>>) -> bool {
    exists|j: int| 0 <= j < args.len() && has_marker(args[j])
}

/// The argument list after conditional augmentation: in compatibility mode,
/// when no argument carries the marker yet, exactly one canonical
/// hardware-acceleration argument is appended; otherwise the list is
/// unchanged.
pub open spec fn augmented(args: Seq<Seq<char>>, compat: bool) -> Seq<Seq<char>> {
    if compat && !args_marked(args) {
        args.push(hw_argument())
    } else {
        args
    }
}

/// The arguments a resolution of store `s` hands to native initialization.
pub open spec fn resolved_args(s: StoreView, detected: bool) -> Seq<Seq<char>> {
    augmented(
        read_args(defaulted(s, detected)),
        read_compat(defaulted(s, detected)),
    )
}

/// The declared type of a settings slot, registered with the host.
#[derive(Clone, Copy, PartialEq, Eq, Structural, Debug)]
pub enum SettingKind {
    IntSetting,
    StringListSetting,
    BoolSetting,
}

/// The editing hint registered with the host for a settings slot.
#[derive(Clone, Copy, PartialEq, Eq, Structural, Debug)]
pub enum SettingHint {
    EnumHint,
    TypedArrayHint,
    NoHint,
}

/// The metadata one settings slot registers with the host configuration
/// system on every resolution: name, declared type, editing hint, the
/// initial value a host-side reset restores, and the restart flag.
pub struct SettingMetadata {
    pub name: String,
    pub kind: SettingKind,
    pub hint: SettingHint,
    pub hint_string: String,
    pub initial: SettingValue,
    pub restart_required: bool,
}

/// The exact metadata a resolution registers: one entry per setting, in
/// store order, all marked as requiring a restart. The initial value of the
/// compatibility flag is unconditionally false; only the first written value
/// uses platform detection.
pub open spec fn metadata_ok(md: Seq<SettingMetadata>) -> bool {
    &&& md.len() == 3
    &&& md[0].name@ == "vlc/log_level"@
    &&& md[0].kind == SettingKind::IntSetting
    &&& md[0].hint == SettingHint::EnumHint
    &&& md[0].hint_string@ == "Debug, Info, Warning, Error, Disabled"@
    &&& md[0].initial@ == SettingView::IntVal(4)
    &&& md[0].restart_required
    &&& md[1].name@ == "vlc/arguments"@
    &&& md[1].kind == SettingKind::StringListSetting
    &&& md[1].hint == SettingHint::TypedArrayHint
    &&& md[1].hint_string@ == "4:"@
    &&& md[1].initial@ == SettingView::Strs(Seq::<Seq<char>>::empty())
    &&& md[1].restart_required
    &&& md[2].name@ == "vlc/steamdeck_mode"@
    &&& md[2].kind == SettingKind::BoolSetting
    &&& md[2].hint == SettingHint::NoHint
    &&& md[2].hint_string@ == "Enable compatibility mode for Steam Deck (uses system VLC)"@
    &&& md[2].initial@ == SettingView::BoolVal(false)
    &&& md[2].restart_required
}

/// The informational notice logged when compatibility mode is on.
pub open spec fn notice_line() -> Seq<char> {
    "VLC: Steam Deck mode enabled - using system VLC with hardware acceleration"@
}

/// The notice accompanying a resolution: present with the fixed wording
/// exactly when compatibility mode resolved to true.
pub open spec fn notice_ok(notice: Option<String>, compat: bool) -> bool {
    match notice {
        Some(n) => compat && n@ == notice_line(),
        None => !compat,
    }
}

/// Everything one resolution yields: the metadata to register, the resolved
/// level and arguments for native initialization, the compatibility flag,
/// and the notice to log.
pub struct Resolution {
    pub metadata: Vec<SettingMetadata>,
    pub log_level: i64,
    pub arguments: Vec<String>,
    pub compatibility_mode: bool,
    pub notice: Option<String>,
}

/// An element-wise copy of a list of strings.
fn copy_strings(v: &Vec<String>) -> (r: Vec<String>)
    ensures
        r@ == v@,
{
    let mut r: Vec<String> = Vec::new();
    let mut k: usize = 0;
    while k < v.len()
        invariant
            k <= v@.len(),
            r@ == v@.subrange(0, k as int),
        decreases v@.len() - k,
    {
        r.push(v[k].clone());
        proof {
            assert(r@ =~= v@.subrange(0, k + 1));
        }
        k += 1;
    }
    proof {
        assert(r@ =~= v@);
    }
    r
}

/// Whether any argument in the list carries the hardware-acceleration
/// marker.
pub fn args_have_marker(args: &Vec<String>) -> (b: bool)
    ensures
        b == args_marked(args.deep_view()),
{
    let mut k: usize = 0;
    while k < args.len()
        invariant
            k <= args@.len(),
            forall|j: int| 0 <= j < k ==> !has_marker(args.deep_view()[j]),
        decreases args@.len() - k,
    {
        if crate::text::contains_substr(args[k].as_str(), "avcodec-hw") {
            proof {
                assert(args.deep_view()[k as int] == args@[k as int]@);
            }
            return true;
        }
        k += 1;
    }
    false
}

/// Appends the canonical hardware-acceleration argument in compatibility
/// mode, unless an argument already carries the marker.
pub fn augment_arguments(args: &mut Vec<String>, compat: bool)
    ensures
        final(args).deep_view() == augmented(old(args).deep_view(), compat),
{
    if compat && !args_have_marker(args) {
        let ghost before = args.deep_view();
        args.push(String::from_str("--avcodec-hw=any"));
        proof {
            assert forall|i: int| 0 <= i < args.deep_view().len() implies args.deep_view()[i]
                == before.push(hw_argument())[i] by {
                if i < before.len() {
                    assert(args.deep_view()[i] == args@[i]@);
                }
            }
            assert(args.deep_view() =~= before.push(hw_argument()));
        }
    }
}

impl SettingsStore {
    /// Resolves the three persisted settings: fills absent slots with their
    /// first-run defaults, registers the full metadata unconditionally, reads
    /// each value back with a type-appropriate fallback, and augments the
    /// argument list in compatibility mode. Safe to repeat: only absent slots
    /// are written.
    pub fn resolve(&mut self, platform_detected: bool) -> (r: Resolution)
        ensures
            final(self)@ == defaulted(old(self)@, platform_detected),
            metadata_ok(r.metadata@),
            r.log_level as int == read_level(defaulted(old(self)@, platform_detected)),
            r.compatibility_mode == read_compat(defaulted(old(self)@, platform_detected)),
            r.arguments.deep_view() == resolved_args(old(self)@, platform_detected),
            notice_ok(r.notice, r.compatibility_mode),
    {
        if self.log_level.is_none() {
            self.log_level = Some(SettingValue::IntValue(4));
        }
        if self.arguments.is_none() {
            let empty_list: Vec<String> = Vec::new();
            proof {
                assert(empty_list.deep_view() =~= Seq::<Seq<char>>::empty());
            }
            self.arguments = Some(SettingValue::StringList(empty_list));
        }
        if self.compatibility_mode.is_none() {
            self.compatibility_mode = Some(SettingValue::BoolValue(platform_detected));
        }
        proof {
            assert(self@ =~= defaulted(old(self)@, platform_detected));
        }

        let mut metadata: Vec<SettingMetadata> = Vec::new();
        metadata.push(SettingMetadata {
            name: String::from_str("vlc/log_level"),
            kind: SettingKind::IntSetting,
            hint: SettingHint::EnumHint,
            hint_string: String::from_str("Debug, Info, Warning, Error, Disabled"),
            initial: SettingValue::IntValue(4),
            restart_required: true,
        });
        let empty_initial: Vec<String> = Vec::new();
        proof {
            assert(empty_initial.deep_view() =~= Seq::<Seq<char>>::empty());
        }
        metadata.push(SettingMetadata {
            name: String::from_str("vlc/arguments"),
            kind: SettingKind::StringListSetting,
            hint: SettingHint::TypedArrayHint,
            // the host's type tag for a string element, followed by a colon
            hint_string: String::from_str("4:"),
            initial: SettingValue::StringList(empty_initial),
            restart_required: true,
        });
        metadata.push(SettingMetadata {
            name: String::from_str("vlc/steamdeck_mode"),
            kind: SettingKind::BoolSetting,
            hint: SettingHint::NoHint,
            hint_string: String::from_str(
                "Enable compatibility mode for Steam Deck (uses system VLC)",
            ),
            initial: SettingValue::BoolValue(false),
            restart_required: true,
        });

        let log_level: i64 = match &self.log_level {
            Some(SettingValue::IntValue(i)) => *i,
            _ => 4,
        };
        let compatibility_mode: bool = match &self.compatibility_mode {
            Some(SettingValue::BoolValue(b)) => *b,
            _ => false,
        };
        let mut arguments: Vec<String> = match &self.arguments {
            Some(SettingValue::StringList(v)) => copy_strings(v),
            _ => Vec::new(),
        };
        proof {
            assert(arguments.deep_view() =~= read_args(self@));
        }

        let notice: Option<String> = if compatibility_mode {
            Some(String::from_str(
                "VLC: Steam Deck mode enabled - using system VLC with hardware acceleration",
            ))
        } else {
            None
        };
        augment_arguments(&mut arguments, compatibility_mode);

        Resolution { metadata, log_level, arguments, compatibility_mode, notice }
    }
}

/// Law: resolution is idempotent with respect to storage. Writing the
/// defaults a first resolution writes and resolving again — with any later
/// platform detection — changes the store no further and yields the same
/// level and resolved arguments.
pub proof fn lemma_resolve_idempotent(s: StoreView, d1: bool, d2: bool)
    ensures
        defaulted(defaulted(s, d1), d2) == defaulted(s, d1),
        read_level(defaulted(defaulted(s, d1), d2)) == read_level(defaulted(s, d1)),
        resolved_args(defaulted(s, d1), d2) == resolved_args(s, d1),
{
    assert(defaulted(defaulted(s, d1), d2) =~~= defaulted(s, d1));
}

/// Law: augmentation never duplicates. If an argument already carries the
/// marker, augmentation appends nothing, whatever the compatibility flag.
pub proof fn lemma_augment_no_duplicate(args: Seq<Seq<char>>, compat: bool)
    requires
        args_marked(args),
    ensures
        augmented(args, compat) == args,
{
}

/// The canonical hardware-acceleration argument carries the marker itself.
pub proof fn lemma_hw_argument_marked()
    ensures
        has_marker(hw_argument()),
{
    reveal_strlit("--avcodec-hw=any");
    reveal_strlit("avcodec-hw");
    assert(hw_argument().subrange(2, 12) =~= marker_text());
    assert(crate::text::occurs_at(hw_argument(), marker_text(), 2));
}

/// Law: augmenting in compatibility mode leaves a list that carries the
/// marker, so augmenting it again — with either flag — changes nothing.
pub proof fn lemma_augment_idempotent(args: Seq<Seq<char>>, compat: bool)
    ensures
        args_marked(augmented(args, true)),
        augmented(augmented(args, true), compat) == augmented(args, true),
{
    if !args_marked(args) {
        lemma_hw_argument_marked();
        let a = augmented(args, true);
        assert(a[args.len() as int] == hw_argument());
    }
    lemma_augment_no_duplicate(augmented(args, true), compat);
}

} // verus!
