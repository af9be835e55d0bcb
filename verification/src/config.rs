//! The project configuration model: the validated description of one
//! project, decoded from the global bindings of its declarative script.
//! The raw bindings arrive as plain tagged values; decoding validates them
//! against the closed sets of C standards and project kinds, rejects
//! unknown keys, applies the documented defaults, and assembles the
//! dependency set, exclusion set, lifecycle scripts and extra libraries.

use vstd::prelude::*;

verus! {

use vstd::string::StrSliceExecFns;
use vstd::string::StringExecFns;
use crate::deps::{DepManager, DepView, Dependency, spec_normalize_origin};
use crate::scripts::{ScriptManager, ScriptsView};
use crate::util::{
    DEFAULT_COMPILER,
    clone_string_vec,
    i64_to_string,
    spec_int_str,
    str_eq,
    vec_contains_str,
};

/// The closed set of C language standards a project may declare.
#[derive(Debug, PartialEq, Eq, Structural, Hash, Clone, Copy)]
pub enum Standard {
    C89,
    C99,
    C11,
    C17,
    C2X,
    C23,
    Gnu89,
    Gnu99,
    Gnu11,
    Gnu17,
    Gnu2X,
    Gnu23,
}

impl Standard {
    pub open spec fn spec_str(self) -> Seq<char> {
        match self {
            Standard::C89 => "c89"@,
            Standard::C99 => "c99"@,
            Standard::C11 => "c11"@,
            Standard::C17 => "c17"@,
            Standard::C2X => "c2x"@,
            Standard::C23 => "c23"@,
            Standard::Gnu89 => "gnu89"@,
            Standard::Gnu99 => "gnu99"@,
            Standard::Gnu11 => "gnu11"@,
            Standard::Gnu17 => "gnu17"@,
            Standard::Gnu2X => "gnu2x"@,
            Standard::Gnu23 => "gnu23"@,
        }
    }

    pub open spec fn spec_from_str(s: Seq<char>) -> Option<Standard> {
        if s == "c89"@ {
            Some(Standard::C89)
        } else if s == "c99"@ {
            Some(Standard::C99)
        } else if s == "c11"@ {
            Some(Standard::C11)
        } else if s == "c17"@ {
            Some(Standard::C17)
        } else if s == "c2x"@ {
            Some(Standard::C2X)
        } else if s == "c23"@ {
            Some(Standard::C23)
        } else if s == "gnu89"@ {
            Some(Standard::Gnu89)
        } else if s == "gnu99"@ {
            Some(Standard::Gnu99)
        } else if s == "gnu11"@ {
            Some(Standard::Gnu11)
        } else if s == "gnu17"@ {
            Some(Standard::Gnu17)
        } else if s == "gnu2x"@ {
            Some(Standard::Gnu2X)
        } else if s == "gnu23"@ {
            Some(Standard::Gnu23)
        } else {
            None
        }
    }

    /// The standard named by `c_std`, or `None` when the value is not in
    /// the closed set.
    pub fn from_str(c_std: &str) -> (r: Option<Standard>)
        ensures
            r == Self::spec_from_str(c_std@),
    {
        if str_eq(c_std, "c89") {
            Some(Standard::C89)
        } else if str_eq(c_std, "c99") {
            Some(Standard::C99)
        } else if str_eq(c_std, "c11") {
            Some(Standard::C11)
        } else if str_eq(c_std, "c17") {
            Some(Standard::C17)
        } else if str_eq(c_std, "c2x") {
            Some(Standard::C2X)
        } else if str_eq(c_std, "c23") {
            Some(Standard::C23)
        } else if str_eq(c_std, "gnu89") {
            Some(Standard::Gnu89)
        } else if str_eq(c_std, "gnu99") {
            Some(Standard::Gnu99)
        } else if str_eq(c_std, "gnu11") {
            Some(Standard::Gnu11)
        } else if str_eq(c_std, "gnu17") {
            Some(Standard::Gnu17)
        } else if str_eq(c_std, "gnu2x") {
            Some(Standard::Gnu2X)
        } else if str_eq(c_std, "gnu23") {
            Some(Standard::Gnu23)
        } else {
            None
        }
    }

    /// The flag value of the standard, as handed to the compiler after
    /// `-std=`.
    pub fn as_str(&self) -> (r: &'static str)
        ensures
            r@ == self.spec_str(),
    {
        match self {
            Standard::C89 => "c89",
            Standard::C99 => "c99",
            Standard::C11 => "c11",
            Standard::C17 => "c17",
            Standard::C2X => "c2x",
            Standard::C23 => "c23",
            Standard::Gnu89 => "gnu89",
            Standard::Gnu99 => "gnu99",
            Standard::Gnu11 => "gnu11",
            Standard::Gnu17 => "gnu17",
            Standard::Gnu2X => "gnu2x",
            Standard::Gnu23 => "gnu23",
        }
    }
}

/// Whether a project compiles to a static library archive or a standalone
/// executable.
#[derive(Debug, PartialEq, Eq, Structural, Hash, Clone, Copy)]
pub enum ProjType {
    Lib,
    Bin,
}

impl ProjType {
    pub open spec fn spec_str(self) -> Seq<char> {
        match self {
            ProjType::Lib => "lib"@,
            ProjType::Bin => "bin"@,
        }
    }

    pub open spec fn spec_from_str(s: Seq<char>) -> Option<ProjType> {
        if s == "lib"@ {
            Some(ProjType::Lib)
        } else if s == "bin"@ {
            Some(ProjType::Bin)
        } else {
            None
        }
    }

    /// The project kind named by `s`, or `None` when the value is neither
    /// `lib` nor `bin`.
    pub fn from_str(s: &str) -> (r: Option<ProjType>)
        ensures
            r == Self::spec_from_str(s@),
    {
        if str_eq(s, "lib") {
            Some(ProjType::Lib)
        } else if str_eq(s, "bin") {
            Some(ProjType::Bin)
        } else {
            None
        }
    }

    pub fn as_str(&self) -> (r: &'static str)
        ensures
            r@ == self.spec_str(),
    {
        match self {
            ProjType::Lib => "lib",
            ProjType::Bin => "bin",
        }
    }
}

/// Mathematical value of `Properties`.
pub struct PropsView {
    pub c_std: Standard,
    pub proj_version: Seq<char>,
    pub proj_type: ProjType,
    pub compiler: Seq<char>,
}

/// The immutable per-build properties of a project.
#[derive(Debug)]
pub struct Properties {
    pub c_std: Standard,
    pub proj_version: String,
    pub proj_type: ProjType,
    pub compiler: String,
}

impl View for Properties {
    type V = PropsView;

    open spec fn view(&self) -> PropsView {
        PropsView {
            c_std: self.c_std,
            proj_version: self.proj_version@,
            proj_type: self.proj_type,
            compiler: self.compiler@,
        }
    }
}

impl Properties {
    /// A fresh copy with the same properties.
    pub fn duplicate(&self) -> (p: Properties)
        ensures
            p@ == self@,
    {
        Properties {
            c_std: self.c_std,
            proj_version: String::from_str(self.proj_version.as_str()),
            proj_type: self.proj_type,
            compiler: String::from_str(self.compiler.as_str()),
        }
    }
}

/// The defaults that hold before any `Props` pair is applied: `c23`, the
/// default compiler, a binary target, and no version.
pub open spec fn spec_default_props() -> PropsView {
    PropsView {
        c_std: Standard::C23,
        proj_version: Seq::empty(),
        proj_type: ProjType::Bin,
        compiler: DEFAULT_COMPILER@,
    }
}

pub open spec fn spec_lower_char(c: char) -> char {
    if c == 'A' {
        'a'
    } else if c == 'B' {
        'b'
    } else if c == 'C' {
        'c'
    } else if c == 'D' {
        'd'
    } else if c == 'E' {
        'e'
    } else if c == 'F' {
        'f'
    } else if c == 'G' {
        'g'
    } else if c == 'H' {
        'h'
    } else if c == 'I' {
        'i'
    } else if c == 'J' {
        'j'
    } else if c == 'K' {
        'k'
    } else if c == 'L' {
        'l'
    } else if c == 'M' {
        'm'
    } else if c == 'N' {
        'n'
    } else if c == 'O' {
        'o'
    } else if c == 'P' {
        'p'
    } else if c == 'Q' {
        'q'
    } else if c == 'R' {
        'r'
    } else if c == 'S' {
        's'
    } else if c == 'T' {
        't'
    } else if c == 'U' {
        'u'
    } else if c == 'V' {
        'v'
    } else if c == 'W' {
        'w'
    } else if c == 'X' {
        'x'
    } else if c == 'Y' {
        'y'
    } else if c == 'Z' {
        'z'
    } else {
        c
    }
}

/// ASCII lowercasing of a string, character by character.
pub open spec fn spec_lower(s: Seq<char>) -> Seq<char> {
    s.map_values(|c: char| spec_lower_char(c))
}

fn lower_char(c: char) -> (r: char)
    ensures
        r == spec_lower_char(c),
{
    if c == 'A' {
        'a'
    } else if c == 'B' {
        'b'
    } else if c == 'C' {
        'c'
    } else if c == 'D' {
        'd'
    } else if c == 'E' {
        'e'
    } else if c == 'F' {
        'f'
    } else if c == 'G' {
        'g'
    } else if c == 'H' {
        'h'
    } else if c == 'I' {
        'i'
    } else if c == 'J' {
        'j'
    } else if c == 'K' {
        'k'
    } else if c == 'L' {
        'l'
    } else if c == 'M' {
        'm'
    } else if c == 'N' {
        'n'
    } else if c == 'O' {
        'o'
    } else if c == 'P' {
        'p'
    } else if c == 'Q' {
        'q'
    } else if c == 'R' {
        'r'
    } else if c == 'S' {
        's'
    } else if c == 'T' {
        't'
    } else if c == 'U' {
        'u'
    } else if c == 'V' {
        'v'
    } else if c == 'W' {
        'w'
    } else if c == 'X' {
        'x'
    } else if c == 'Y' {
        'y'
    } else if c == 'Z' {
        'z'
    } else {
        c
    }
}

/// True when ASCII-lowercasing `key` gives exactly `lowered`.
fn eq_lowered(key: &str, lowered: &str) -> (r: bool)
    ensures
        r == (spec_lower(key@) == lowered@),
{
    let kn = key.unicode_len();
    let ln = lowered.unicode_len();
    if kn != ln {
        proof {
            assert(spec_lower(key@).len() == key@.len());
        }
        return false;
    }
    let mut i: usize = 0;
    while i < kn
        invariant
            0 <= i <= kn,
            kn == key@.len(),
            kn == lowered@.len(),
            forall|j: int| 0 <= j < i ==> spec_lower_char(key@[j]) == lowered@[j],
        decreases kn - i,
    {
        if lower_char(key.get_char(i)) != lowered.get_char(i) {
            proof {
                assert(spec_lower(key@)[i as int] != lowered@[i as int]);
            }
            return false;
        }
        i += 1;
    }
    proof {
        assert(spec_lower(key@) =~= lowered@);
    }
    true
}

/// Mathematical value of a `ConfigError`.
pub enum ConfigErrView {
    MissingName,
    MissingVersion,
    InvalidStd(Seq<char>),
    InvalidProjType(Seq<char>),
    UnknownPropsKey(Seq<char>),
    InvalidDependencyValue,
    InvalidScriptsKey(Seq<char>),
    ScriptFailed(Seq<char>),
}

/// A typed configuration failure: the reason a project description was
/// rejected. Configuration errors are always fatal and never silently
/// defaulted away.
#[derive(Debug, PartialEq, Eq)]
pub enum ConfigError {
    /// The required `Name` binding is missing.
    MissingName,
    /// No `version` key was given in the `Props` table.
    MissingVersion,
    /// The `std` value is not in the closed set of C standards.
    InvalidStd(String),
    /// The `type` value is neither `lib` nor `bin`.
    InvalidProjType(String),
    /// A `Props` key outside `std`, `version`, `compiler` and `type`.
    UnknownPropsKey(String),
    /// A dependency entry held something other than an origin string and a
    /// version number, or no origin at all.
    InvalidDependencyValue,
    /// A `Scripts` key other than `pre` or `post`.
    InvalidScriptsKey(String),
    /// The project script itself could not be evaluated or read back.
    ScriptFailed(String),
}

impl View for ConfigError {
    type V = ConfigErrView;

    open spec fn view(&self) -> ConfigErrView {
        match self {
            ConfigError::MissingName => ConfigErrView::MissingName,
            ConfigError::MissingVersion => ConfigErrView::MissingVersion,
            ConfigError::InvalidStd(v) => ConfigErrView::InvalidStd(v@),
            ConfigError::InvalidProjType(v) => ConfigErrView::InvalidProjType(v@),
            ConfigError::UnknownPropsKey(k) => ConfigErrView::UnknownPropsKey(k@),
            ConfigError::InvalidDependencyValue => ConfigErrView::InvalidDependencyValue,
            ConfigError::InvalidScriptsKey(k) => ConfigErrView::InvalidScriptsKey(k@),
            ConfigError::ScriptFailed(m) => ConfigErrView::ScriptFailed(m@),
        }
    }
}

pub open spec fn spec_error_message(e: ConfigErrView) -> Seq<char> {
    match e {
        ConfigErrView::MissingName => "Failed to get name property even though it is required"@,
        ConfigErrView::MissingVersion => "Failed to get project version"@,
        ConfigErrView::InvalidStd(v) => "`"@ + v
            + "` is not a valid value for the projects C Standard"@,
        ConfigErrView::InvalidProjType(v) => "`"@ + v
            + "` is not a valid value for the projects type. Valid types are: `lib` and `bin`"@,
        ConfigErrView::UnknownPropsKey(k) => "invalid version entry: "@ + k,
        ConfigErrView::InvalidDependencyValue => "Invalid value in dependency table"@,
        ConfigErrView::InvalidScriptsKey(k) => "Found invalid key: "@ + k,
        ConfigErrView::ScriptFailed(m) => m,
    }
}

impl ConfigError {
    /// The user-facing text of the error.
    pub fn message(&self) -> (r: String)
        ensures
            r@ == spec_error_message(self@),
    {
        match self {
            ConfigError::MissingName => String::from_str(
                "Failed to get name property even though it is required",
            ),
            ConfigError::MissingVersion => String::from_str("Failed to get project version"),
            ConfigError::InvalidStd(v) => {
                let mut out = String::from_str("`");
                out.append(v.as_str());
                out.append("` is not a valid value for the projects C Standard");
                out
            },
            ConfigError::InvalidProjType(v) => {
                let mut out = String::from_str("`");
                out.append(v.as_str());
                out.append(
                    "` is not a valid value for the projects type. Valid types are: `lib` and `bin`",
                );
                out
            },
            ConfigError::UnknownPropsKey(k) => {
                let mut out = String::from_str("invalid version entry: ");
                out.append(k.as_str());
                out
            },
            ConfigError::InvalidDependencyValue => String::from_str(
                "Invalid value in dependency table",
            ),
            ConfigError::InvalidScriptsKey(k) => {
                let mut out = String::from_str("Found invalid key: ");
                out.append(k.as_str());
                out
            },
            ConfigError::ScriptFailed(m) => {
                let out = String::from_str(m.as_str());
                out
            },
        }
    }
}

/// Mathematical value of a `RawValue`.
pub enum RawValView {
    Int(int),
    Num(Seq<char>),
    Str(Seq<char>),
    Other,
}

/// One value of a dependency entry as the script engine handed it back,
/// pattern-matched into the closed set the decoder accepts: an integer, a
/// number (already rendered as text), a string, or anything else.
#[derive(Debug, PartialEq, Eq)]
pub enum RawValue {
    Int(i64),
    Num(String),
    Str(String),
    Other,
}

impl View for RawValue {
    type V = RawValView;

    open spec fn view(&self) -> RawValView {
        match self {
            RawValue::Int(i) => RawValView::Int(*i as int),
            RawValue::Num(s) => RawValView::Num(s@),
            RawValue::Str(s) => RawValView::Str(s@),
            RawValue::Other => RawValView::Other,
        }
    }
}

impl DeepView for RawValue {
    type V = RawValView;

    open spec fn deep_view(&self) -> RawValView {
        self.view()
    }
}

/// Mathematical value of a `RawConfig`.
pub struct RawConfigView {
    pub name: Option<Seq<char>>,
    pub props: Option<Seq<(Seq<char>, Seq<char>)>>,
    pub dependencies: Option<Seq<Seq<RawValView>>>,
    pub exclude: Option<Seq<Seq<char>>>,
    pub scripts: Option<Seq<(Seq<char>, Seq<Seq<char>>)>>,
    pub libraries: Option<Seq<Seq<char>>>,
    pub entry: Option<Seq<char>>,
}

/// The raw global bindings of a project script, before validation. A
/// `None` field means the binding was absent.
pub struct RawConfig {
    pub name: Option<String>,
    pub props: Option<Vec<(String, String)>>,
    pub dependencies: Option<Vec<Vec<RawValue>>>,
    pub exclude: Option<Vec<String>>,
    pub scripts: Option<Vec<(String, Vec<String>)>>,
    pub libraries: Option<Vec<String>>,
    pub entry: Option<String>,
}

impl View for RawConfig {
    type V = RawConfigView;

    open spec fn view(&self) -> RawConfigView {
        RawConfigView {
            name: self.name.deep_view(),
            props: self.props.deep_view(),
            dependencies: self.dependencies.deep_view(),
            exclude: self.exclude.deep_view(),
            scripts: self.scripts.deep_view(),
            libraries: self.libraries.deep_view(),
            entry: self.entry.deep_view(),
        }
    }
}

/// One step per `Props` pair, from pair `i` on: `std`, `version`,
/// `compiler` and `type` (keys compared after ASCII lowercasing) update the
/// accumulated properties; an explicitly present but unrecognized value or
/// key is an error. The boolean records whether a `version` key was seen.
pub open spec fn spec_fold_props(
    pairs: Seq<(Seq<char>, Seq<char>)>,
    i: int,
    acc: PropsView,
    seen_version: bool,
) -> Result<(PropsView, bool), ConfigErrView>
    decreases pairs.len() - i,
{
    if i < 0 || i >= pairs.len() {
        Ok((acc, seen_version))
    } else {
        let k = pairs[i].0;
        let v = pairs[i].1;
        let kl = spec_lower(k);
        if kl == "std"@ {
            match Standard::spec_from_str(v) {
                Some(s) => spec_fold_props(
                    pairs,
                    i + 1,
                    PropsView {
                        c_std: s,
                        proj_version: acc.proj_version,
                        proj_type: acc.proj_type,
                        compiler: acc.compiler,
                    },
                    seen_version,
                ),
                None => Err(ConfigErrView::InvalidStd(v)),
            }
        } else if kl == "version"@ {
            spec_fold_props(
                pairs,
                i + 1,
                PropsView {
                    c_std: acc.c_std,
                    proj_version: v,
                    proj_type: acc.proj_type,
                    compiler: acc.compiler,
                },
                true,
            )
        } else if kl == "compiler"@ {
            spec_fold_props(
                pairs,
                i + 1,
                PropsView {
                    c_std: acc.c_std,
                    proj_version: acc.proj_version,
                    proj_type: acc.proj_type,
                    compiler: v,
                },
                seen_version,
            )
        } else if kl == "type"@ {
            match ProjType::spec_from_str(v) {
                Some(t) => spec_fold_props(
                    pairs,
                    i + 1,
                    PropsView {
                        c_std: acc.c_std,
                        proj_version: acc.proj_version,
                        proj_type: t,
                        compiler: acc.compiler,
                    },
                    seen_version,
                ),
                None => Err(ConfigErrView::InvalidProjType(v)),
            }
        } else {
            Err(ConfigErrView::UnknownPropsKey(k))
        }
    }
}

/// One step per value of a dependency entry, from value `i` on: an integer
/// or number sets the version, a string sets the origin, anything else is
/// rejected. The boolean records whether an origin string was seen.
pub open spec fn spec_fold_dep_entry(
    vals: Seq<RawValView>,
    i: int,
    version: Seq<char>,
    origin: Seq<char>,
    seen_origin: bool,
) -> Result<(Seq<char>, Seq<char>, bool), ConfigErrView>
    decreases vals.len() - i,
{
    if i < 0 || i >= vals.len() {
        Ok((version, origin, seen_origin))
    } else {
        match vals[i] {
            RawValView::Int(n) => spec_fold_dep_entry(
                vals,
                i + 1,
                spec_int_str(n),
                origin,
                seen_origin,
            ),
            RawValView::Num(s) => spec_fold_dep_entry(vals, i + 1, s, origin, seen_origin),
            RawValView::Str(s) => spec_fold_dep_entry(vals, i + 1, version, s, true),
            RawValView::Other => Err(ConfigErrView::InvalidDependencyValue),
        }
    }
}

/// One step per dependency entry, from entry `i` on: each entry decodes to
/// a (version, origin) pair — an entry without an origin is rejected — and
/// is inserted with its origin normalized, duplicates collapsing.
pub open spec fn spec_fold_deps(entries: Seq<Seq<RawValView>>, i: int, acc: Seq<DepView>) -> Result<
    Seq<DepView>,
    ConfigErrView,
>
    decreases entries.len() - i,
{
    if i < 0 || i >= entries.len() {
        Ok(acc)
    } else {
        match spec_fold_dep_entry(entries[i], 0, "0"@, Seq::empty(), false) {
            Err(e) => Err(e),
            Ok((version, origin, seen_origin)) => if !seen_origin {
                Err(ConfigErrView::InvalidDependencyValue)
            } else {
                let d = DepView { version, origin: spec_normalize_origin(origin) };
                spec_fold_deps(
                    entries,
                    i + 1,
                    if acc.contains(d) {
                        acc
                    } else {
                        acc.push(d)
                    },
                )
            },
        }
    }
}

/// One step per `Scripts` pair, from pair `i` on: `pre` and `post` replace
/// the respective list; any other key is rejected.
pub open spec fn spec_fold_scripts(
    pairs: Seq<(Seq<char>, Seq<Seq<char>>)>,
    i: int,
    pre: Seq<Seq<char>>,
    post: Seq<Seq<char>>,
) -> Result<(Seq<Seq<char>>, Seq<Seq<char>>), ConfigErrView>
    decreases pairs.len() - i,
{
    if i < 0 || i >= pairs.len() {
        Ok((pre, post))
    } else {
        let k = pairs[i].0;
        let v = pairs[i].1;
        if k == "pre"@ {
            spec_fold_scripts(pairs, i + 1, v, post)
        } else if k == "post"@ {
            spec_fold_scripts(pairs, i + 1, pre, v)
        } else {
            Err(ConfigErrView::InvalidScriptsKey(k))
        }
    }
}

/// The strings of `items` from index `i` on, in order, with duplicates
/// collapsed into `acc`.
pub open spec fn spec_dedup(items: Seq<Seq<char>>, i: int, acc: Seq<Seq<char>>) -> Seq<Seq<char>>
    decreases items.len() - i,
{
    if i < 0 || i >= items.len() {
        acc
    } else {
        spec_dedup(
            items,
            i + 1,
            if acc.contains(items[i]) {
                acc
            } else {
                acc.push(items[i])
            },
        )
    }
}

/// An exclusion entry resolved against the project's source directory.
pub open spec fn spec_resolve_excluded(root: Seq<char>, items: Seq<Seq<char>>) -> Seq<Seq<char>> {
    items.map_values(|e: Seq<char>| root + "/src/"@ + e)
}

/// The entry file used when the script names none: `lib.c` for libraries,
/// `main.c` for binaries.
pub open spec fn spec_default_entry(t: ProjType) -> Seq<char> {
    match t {
        ProjType::Lib => "lib.c"@,
        ProjType::Bin => "main.c"@,
    }
}

/// Mathematical value of a `Config`.
pub struct ConfigView {
    pub name: Seq<char>,
    pub props: PropsView,
    pub deps: Seq<DepView>,
    pub entry: Seq<char>,
    pub excluded: Seq<Seq<char>>,
    pub scripts: Option<ScriptsView>,
    pub libraries: Seq<Seq<char>>,
}

/// The fully validated description of one project: its name, build
/// properties, dependency set, entry file, exclusion set, lifecycle
/// scripts and extra link libraries.
#[derive(Debug)]
pub struct Config {
    pub name: String,
    pub props: Properties,
    pub deps: DepManager,
    pub entry: String,
    pub excluded: Vec<String>,
    pub scripts: Option<ScriptManager>,
    pub libraries: Vec<String>,
}

impl View for Config {
    type V = ConfigView;

    open spec fn view(&self) -> ConfigView {
        ConfigView {
            name: self.name@,
            props: self.props@,
            deps: self.deps@,
            entry: self.entry@,
            excluded: self.excluded.deep_view(),
            scripts: match &self.scripts {
                Some(sm) => Some(sm@),
                None => None,
            },
            libraries: self.libraries.deep_view(),
        }
    }
}

impl Config {
    /// Every stored dependency origin is normalized and the set holds no
    /// duplicate.
    pub open spec fn wf(&self) -> bool {
        self.deps.wf()
    }
}

/// What decoding the raw bindings must produce: the validation rules of the
/// configuration model, applied in order — required name, properties with
/// their defaults and the required version, exclusions resolved against the
/// source directory, the dependency set, the entry-file default, the
/// lifecycle scripts, and the extra libraries with duplicates collapsed.
pub open spec fn spec_decode(root: Seq<char>, raw: RawConfigView) -> Result<
    ConfigView,
    ConfigErrView,
> {
    match raw.name {
        None => Err(ConfigErrView::MissingName),
        Some(name) => {
            let props_pairs = match raw.props {
                Some(p) => p,
                None => Seq::empty(),
            };
            match spec_fold_props(props_pairs, 0, spec_default_props(), false) {
                Err(e) => Err(e),
                Ok((props, seen_version)) => if !seen_version {
                    Err(ConfigErrView::MissingVersion)
                } else {
                    let excluded = spec_resolve_excluded(
                        root,
                        match raw.exclude {
                            Some(x) => x,
                            None => Seq::empty(),
                        },
                    );
                    let dep_entries = match raw.dependencies {
                        Some(d) => d,
                        None => Seq::empty(),
                    };
                    match spec_fold_deps(dep_entries, 0, Seq::empty()) {
                        Err(e) => Err(e),
                        Ok(deps) => {
                            let script_pairs = match raw.scripts {
                                Some(s) => s,
                                None => Seq::empty(),
                            };
                            match spec_fold_scripts(script_pairs, 0, Seq::empty(), Seq::empty()) {
                                Err(e) => Err(e),
                                Ok((pre, post)) => {
                                    let libraries = spec_dedup(
                                        match raw.libraries {
                                            Some(l) => l,
                                            None => Seq::empty(),
                                        },
                                        0,
                                        Seq::empty(),
                                    );
                                    let entry = match raw.entry {
                                        Some(e) => e,
                                        None => spec_default_entry(props.proj_type),
                                    };
                                    Ok(
                                        ConfigView {
                                            name,
                                            props,
                                            deps,
                                            entry,
                                            excluded,
                                            scripts: if pre.len() == 0 && post.len() == 0 {
                                                None
                                            } else {
                                                Some(ScriptsView { pre, post })
                                            },
                                            libraries,
                                        },
                                    )
                                },
                            }
                        },
                    }
                },
            }
        },
    }
}

/// Applies the `Props` pairs to the documented defaults, in order. The
/// boolean of the result says whether a `version` key was present.
pub fn decode_props(pairs: &Vec<(String, String)>) -> (r: Result<(Properties, bool), ConfigError>)
    ensures
        match r {
            Ok(p) => spec_fold_props(pairs.deep_view(), 0, spec_default_props(), false) == Ok::<
                (PropsView, bool),
                ConfigErrView,
            >((p.0@, p.1)),
            Err(e) => spec_fold_props(pairs.deep_view(), 0, spec_default_props(), false) == Err::<
                (PropsView, bool),
                ConfigErrView,
            >(e@),
        },
{
    let mut props = Properties {
        c_std: Standard::C23,
        proj_version: String::new(),
        proj_type: ProjType::Bin,
        compiler: String::from_str(DEFAULT_COMPILER),
    };
    let mut seen_version = false;
    let ghost dv = pairs.deep_view();
    proof {
        assert(props@ == spec_default_props());
    }
    let mut i: usize = 0;
    while i < pairs.len()
        invariant
            0 <= i <= pairs.len(),
            dv == pairs.deep_view(),
            dv.len() == pairs.len(),
            spec_fold_props(dv, 0, spec_default_props(), false) == spec_fold_props(
                dv,
                i as int,
                props@,
                seen_version,
            ),
        decreases pairs.len() - i,
    {
        let ghost accv = props@;
        let ghost seenv = seen_version;
        proof {
            assert(dv[i as int] == (pairs[i as int].0@, pairs[i as int].1@));
        }
        let key = &pairs[i].0;
        let val = &pairs[i].1;
        if eq_lowered(key.as_str(), "std") {
            match Standard::from_str(val.as_str()) {
                Some(s) => {
                    props.c_std = s;
                },
                None => {
                    return Err(ConfigError::InvalidStd(String::from_str(val.as_str())));
                },
            }
        } else if eq_lowered(key.as_str(), "version") {
            props.proj_version = String::from_str(val.as_str());
            seen_version = true;
        } else if eq_lowered(key.as_str(), "compiler") {
            props.compiler = String::from_str(val.as_str());
        } else if eq_lowered(key.as_str(), "type") {
            match ProjType::from_str(val.as_str()) {
                Some(t) => {
                    props.proj_type = t;
                },
                None => {
                    return Err(ConfigError::InvalidProjType(String::from_str(val.as_str())));
                },
            }
        } else {
            return Err(ConfigError::UnknownPropsKey(String::from_str(key.as_str())));
        }
        proof {
            assert(spec_fold_props(dv, i as int, accv, seenv) == spec_fold_props(
                dv,
                i + 1,
                props@,
                seen_version,
            ));
        }
        i += 1;
    }
    Ok((props, seen_version))
}

/// Decodes every dependency entry and collects the dependency set, in
/// declaration order with duplicates collapsed.
pub fn decode_deps(entries: &Vec<Vec<RawValue>>) -> (r: Result<DepManager, ConfigError>)
    ensures
        match r {
            Ok(dm) => spec_fold_deps(entries.deep_view(), 0, Seq::empty()) == Ok::<
                Seq<DepView>,
                ConfigErrView,
            >(dm@) && dm.wf(),
            Err(e) => spec_fold_deps(entries.deep_view(), 0, Seq::empty()) == Err::<
                Seq<DepView>,
                ConfigErrView,
            >(e@),
        },
{
    let ghost dv = entries.deep_view();
    let mut dm = DepManager::new(Vec::new());
    proof {
        assert(dm@ =~= Seq::<DepView>::empty());
    }
    let mut i: usize = 0;
    while i < entries.len()
        invariant
            0 <= i <= entries.len(),
            dv == entries.deep_view(),
            dv.len() == entries.len(),
            spec_fold_deps(dv, 0, Seq::empty()) == spec_fold_deps(dv, i as int, dm@),
            dm.wf(),
        decreases entries.len() - i,
    {
        let ghost dmv = dm@;
        let vals = &entries[i];
        let ghost ev = dv[i as int];
        proof {
            assert(ev == vals.deep_view());
        }
        let mut version = String::from_str("0");
        let mut origin = String::new();
        let mut seen_origin = false;
        proof {
            reveal_strlit("0");
            assert(version@ =~= "0"@);
            assert(origin@ =~= Seq::<char>::empty());
        }
        let mut j: usize = 0;
        while j < vals.len()
            invariant
                0 <= j <= vals.len(),
                ev == vals.deep_view(),
                ev.len() == vals.len(),
                dv == entries.deep_view(),
                dv.len() == entries.len(),
                0 <= i < entries.len(),
                ev == dv[i as int],
                dmv == dm@,
                spec_fold_deps(dv, 0, Seq::empty()) == spec_fold_deps(dv, i as int, dmv),
                spec_fold_dep_entry(ev, 0, "0"@, Seq::empty(), false) == spec_fold_dep_entry(
                    ev,
                    j as int,
                    version@,
                    origin@,
                    seen_origin,
                ),
            decreases vals.len() - j,
        {
            proof {
                assert(ev[j as int] == vals[j as int]@);
            }
            match &vals[j] {
                RawValue::Int(n) => {
                    version = i64_to_string(*n);
                },
                RawValue::Num(s) => {
                    version = String::from_str(s.as_str());
                },
                RawValue::Str(s) => {
                    origin = String::from_str(s.as_str());
                    seen_origin = true;
                },
                RawValue::Other => {
                    proof {
                        assert(spec_fold_dep_entry(ev, j as int, version@, origin@, seen_origin)
                            == Err::<(Seq<char>, Seq<char>, bool), ConfigErrView>(
                            ConfigErrView::InvalidDependencyValue,
                        ));
                        assert(spec_fold_deps(dv, i as int, dmv) == Err::<
                            Seq<DepView>,
                            ConfigErrView,
                        >(ConfigErrView::InvalidDependencyValue));
                    }
                    return Err(ConfigError::InvalidDependencyValue);
                },
            }
            j += 1;
        }
        if !seen_origin {
            proof {
                assert(spec_fold_dep_entry(ev, 0, "0"@, Seq::empty(), false) == Ok::<
                    (Seq<char>, Seq<char>, bool),
                    ConfigErrView,
                >((version@, origin@, false)));
                assert(spec_fold_deps(dv, i as int, dmv) == Err::<Seq<DepView>, ConfigErrView>(
                    ConfigErrView::InvalidDependencyValue,
                ));
            }
            return Err(ConfigError::InvalidDependencyValue);
        }
        let dep = Dependency::new(origin.as_str(), version.as_str());
        let ghost depv = dep@;
        let added = dm.insert(dep);
        proof {
            assert(spec_fold_deps(dv, i as int, dmv) == spec_fold_deps(dv, i + 1, dm@));
            if added {
                assert forall|a: int, b: int| 0 <= a < b < dm@.len() implies dm@[a] != dm@[b] by {
                    if b < dm@.len() - 1 {
                        assert(dm@[a] == dmv[a] && dm@[b] == dmv[b]);
                    } else {
                        assert(dm@[b] == depv);
                        assert(!dmv.contains(depv));
                        assert(dm@[a] == dmv[a]);
                    }
                }
            }
        }
        i += 1;
    }
    Ok(dm)
}

/// Applies the `Scripts` pairs: the `pre` and `post` lists, in order.
pub fn decode_scripts(pairs: &Vec<(String, Vec<String>)>) -> (r: Result<
    (Vec<String>, Vec<String>),
    ConfigError,
>)
    ensures
        match r {
            Ok(p) => spec_fold_scripts(pairs.deep_view(), 0, Seq::empty(), Seq::empty()) == Ok::<
                (Seq<Seq<char>>, Seq<Seq<char>>),
                ConfigErrView,
            >((p.0.deep_view(), p.1.deep_view())),
            Err(e) => spec_fold_scripts(pairs.deep_view(), 0, Seq::empty(), Seq::empty()) == Err::<
                (Seq<Seq<char>>, Seq<Seq<char>>),
                ConfigErrView,
            >(e@),
        },
{
    let ghost dv = pairs.deep_view();
    let mut pre: Vec<String> = Vec::new();
    let mut post: Vec<String> = Vec::new();
    proof {
        assert(pre.deep_view() =~= Seq::<Seq<char>>::empty());
        assert(post.deep_view() =~= Seq::<Seq<char>>::empty());
    }
    let mut i: usize = 0;
    while i < pairs.len()
        invariant
            0 <= i <= pairs.len(),
            dv == pairs.deep_view(),
            dv.len() == pairs.len(),
            spec_fold_scripts(dv, 0, Seq::empty(), Seq::empty()) == spec_fold_scripts(
                dv,
                i as int,
                pre.deep_view(),
                post.deep_view(),
            ),
        decreases pairs.len() - i,
    {
        proof {
            assert(dv[i as int] == (pairs[i as int].0@, pairs[i as int].1.deep_view()));
        }
        let key = &pairs[i].0;
        if str_eq(key.as_str(), "pre") {
            pre = clone_string_vec(&pairs[i].1);
        } else if str_eq(key.as_str(), "post") {
            post = clone_string_vec(&pairs[i].1);
        } else {
            return Err(ConfigError::InvalidScriptsKey(String::from_str(key.as_str())));
        }
        i += 1;
    }
    Ok((pre, post))
}

/// The strings of `items` in order, with duplicates collapsed.
pub fn dedup_strings(items: &Vec<String>) -> (r: Vec<String>)
    ensures
        r.deep_view() == spec_dedup(items.deep_view(), 0, Seq::empty()),
{
    let ghost dv = items.deep_view();
    let mut out: Vec<String> = Vec::new();
    proof {
        assert(out.deep_view() =~= Seq::<Seq<char>>::empty());
    }
    let mut i: usize = 0;
    while i < items.len()
        invariant
            0 <= i <= items.len(),
            dv == items.deep_view(),
            dv.len() == items.len(),
            spec_dedup(dv, 0, Seq::empty()) == spec_dedup(dv, i as int, out.deep_view()),
        decreases items.len() - i,
    {
        let ghost outv = out.deep_view();
        proof {
            assert(dv[i as int] == items[i as int]@);
        }
        if !vec_contains_str(&out, items[i].as_str()) {
            out.push(String::from_str(items[i].as_str()));
            proof {
                assert(out.deep_view() =~= outv.push(dv[i as int]));
            }
        }
        i += 1;
    }
    out
}

/// Resolves each exclusion entry against `<root>/src/`.
pub fn resolve_excluded(root_dir: &str, items: &Vec<String>) -> (r: Vec<String>)
    ensures
        r.deep_view() == spec_resolve_excluded(root_dir@, items.deep_view()),
{
    let ghost dv = items.deep_view();
    let ghost f = |e: Seq<char>| root_dir@ + "/src/"@ + e;
    let mut out: Vec<String> = Vec::new();
    let mut i: usize = 0;
    while i < items.len()
        invariant
            0 <= i <= items.len(),
            dv == items.deep_view(),
            dv.len() == items.len(),
            out@.len() == i,
            forall|j: int| 0 <= j < i ==> out.deep_view()[j] == f(dv[j]),
            f == (|e: Seq<char>| root_dir@ + "/src/"@ + e),
        decreases items.len() - i,
    {
        proof {
            assert(dv[i as int] == items[i as int]@);
        }
        let ghost outv = out.deep_view();
        let mut p = String::from_str(root_dir);
        p.append("/src/");
        p.append(items[i].as_str());
        proof {
            assert(p@ == f(dv[i as int]));
        }
        out.push(p);
        proof {
            assert(out.deep_view() =~= outv.push(f(dv[i as int])));
        }
        i += 1;
    }
    proof {
        assert(out.deep_view() =~= dv.map_values(f));
    }
    out
}

impl Config {
    /// Validates the raw global bindings of a project script into a
    /// configuration, resolving exclusions against `root_dir`, or reports
    /// the first typed configuration error.
    pub fn decode(root_dir: &str, raw: &RawConfig) -> (r: Result<Config, ConfigError>)
        ensures
            match r {
                Ok(c) => spec_decode(root_dir@, raw@) == Ok::<ConfigView, ConfigErrView>(c@)
                    && c.wf(),
                Err(e) => spec_decode(root_dir@, raw@) == Err::<ConfigView, ConfigErrView>(e@),
            },
    {
        let name = match &raw.name {
            None => {
                return Err(ConfigError::MissingName);
            },
            Some(n) => String::from_str(n.as_str()),
        };
        let props_res = match &raw.props {
            Some(p) => decode_props(p),
            None => {
                let empty: Vec<(String, String)> = Vec::new();
                proof {
                    assert(empty.deep_view() =~= Seq::<(Seq<char>, Seq<char>)>::empty());
                }
                decode_props(&empty)
            },
        };
        let (props, seen_version) = match props_res {
            Ok(p) => p,
            Err(e) => {
                return Err(e);
            },
        };
        if !seen_version {
            return Err(ConfigError::MissingVersion);
        }
        let excluded = match &raw.exclude {
            Some(x) => resolve_excluded(root_dir, x),
            None => {
                let empty: Vec<String> = Vec::new();
                proof {
                    assert(empty.deep_view() =~= Seq::<Seq<char>>::empty());
                    assert(spec_resolve_excluded(root_dir@, empty.deep_view()) =~= Seq::<
                        Seq<char>,
                    >::empty());
                }
                resolve_excluded(root_dir, &empty)
            },
        };
        let deps_res = match &raw.dependencies {
            Some(d) => decode_deps(d),
            None => {
                let empty: Vec<Vec<RawValue>> = Vec::new();
                proof {
                    assert(empty.deep_view() =~= Seq::<Seq<RawValView>>::empty());
                }
                decode_deps(&empty)
            },
        };
        let deps = match deps_res {
            Ok(d) => d,
            Err(e) => {
                return Err(e);
            },
        };
        let scripts_res = match &raw.scripts {
            Some(s) => decode_scripts(s),
            None => {
                let empty: Vec<(String, Vec<String>)> = Vec::new();
                proof {
                    assert(empty.deep_view() =~= Seq::<(Seq<char>, Seq<Seq<char>>)>::empty());
                }
                decode_scripts(&empty)
            },
        };
        let (pre, post) = match scripts_res {
            Ok(p) => p,
            Err(e) => {
                return Err(e);
            },
        };
        let libraries = match &raw.libraries {
            Some(l) => dedup_strings(l),
            None => {
                let empty: Vec<String> = Vec::new();
                proof {
                    assert(empty.deep_view() =~= Seq::<Seq<char>>::empty());
                    assert(spec_dedup(empty.deep_view(), 0, Seq::empty()) =~= Seq::<
                        Seq<char>,
                    >::empty());
                }
                dedup_strings(&empty)
            },
        };
        let entry = match &raw.entry {
            Some(e) => String::from_str(e.as_str()),
            None => match props.proj_type {
                ProjType::Lib => String::from_str("lib.c"),
                ProjType::Bin => String::from_str("main.c"),
            },
        };
        let scripts = if pre.len() == 0 && post.len() == 0 {
            None
        } else {
            Some(ScriptManager::new(pre, post))
        };
        Ok(Config { name, props, deps, entry, excluded, scripts, libraries })
    }

    /// Evaluates the project script, reads its global bindings back as
    /// plain values, and decodes them into a validated configuration. The
    /// script runs in a disposable interpreter; whatever it computed, the
    /// decoding validates every binding, so a successful result is a
    /// well-formed configuration.
    pub fn parse(root_dir: &str, file: &crate::files::FileHandler) -> (r: Result<
        Config,
        ConfigError,
    >)
        ensures
            r matches Ok(c) ==> c.wf(),
    {
        let lua = match crate::lua_utils::lua_eval(file.file_content.as_str()) {
            Ok(l) => l,
            Err(e) => {
                return Err(ConfigError::ScriptFailed(crate::lua_utils::lua_error_message(&e)));
            },
        };
        let name = crate::lua_utils::lua_global_string(&lua, "Name");
        let props = match crate::lua_utils::lua_global_table(&lua, "Props") {
            Some(t) => match crate::lua_utils::lua_table_string_pairs(&t) {
                Ok(p) => Some(p),
                Err(e) => {
                    return Err(
                        ConfigError::ScriptFailed(crate::lua_utils::lua_error_message(&e)),
                    );
                },
            },
            None => None,
        };
        let dependencies = match crate::lua_utils::lua_global_table(&lua, "Dependencies") {
            Some(t) => {
                let tables = match crate::lua_utils::lua_table_seq_tables(&t) {
                    Ok(ts) => ts,
                    Err(e) => {
                        return Err(
                            ConfigError::ScriptFailed(crate::lua_utils::lua_error_message(&e)),
                        );
                    },
                };
                let mut entries: Vec<Vec<RawValue>> = Vec::new();
                let mut i: usize = 0;
                while i < tables.len()
                    decreases tables.len() - i,
                {
                    let mut vals = match crate::lua_utils::lua_table_seq_values(&tables[i]) {
                        Ok(vs) => vs,
                        Err(e) => {
                            return Err(
                                ConfigError::ScriptFailed(
                                    crate::lua_utils::lua_error_message(&e),
                                ),
                            );
                        },
                    };
                    let mut row: Vec<RawValue> = Vec::new();
                    while vals.len() > 0
                        decreases vals.len(),
                    {
                        let v = vals.remove(0);
                        row.push(crate::lua_utils::lua_classify_value(v));
                    }
                    entries.push(row);
                    i += 1;
                }
                Some(entries)
            },
            None => None,
        };
        let exclude = match crate::lua_utils::lua_global_table(&lua, "Exclude") {
            Some(t) => Some(crate::lua_utils::lua_table_seq_strings_lenient(&t)),
            None => None,
        };
        let scripts = match crate::lua_utils::lua_global_table(&lua, "Scripts") {
            Some(t) => {
                let pairs = crate::lua_utils::lua_table_table_pairs(&t);
                let mut sp: Vec<(String, Vec<String>)> = Vec::new();
                let mut i: usize = 0;
                while i < pairs.len()
                    decreases pairs.len() - i,
                {
                    let vs = match crate::lua_utils::lua_table_seq_strings(&pairs[i].1) {
                        Ok(v) => v,
                        Err(e) => {
                            return Err(
                                ConfigError::ScriptFailed(
                                    crate::lua_utils::lua_error_message(&e),
                                ),
                            );
                        },
                    };
                    sp.push((String::from_str(pairs[i].0.as_str()), vs));
                    i += 1;
                }
                Some(sp)
            },
            None => None,
        };
        let libraries = match crate::lua_utils::lua_global_table(&lua, "Libraries") {
            Some(t) => match crate::lua_utils::lua_table_seq_strings(&t) {
                Ok(v) => Some(v),
                Err(e) => {
                    return Err(
                        ConfigError::ScriptFailed(crate::lua_utils::lua_error_message(&e)),
                    );
                },
            },
            None => None,
        };
        let entry = crate::lua_utils::lua_global_string(&lua, "Entry");
        let raw = RawConfig { name, props, dependencies, exclude, scripts, libraries, entry };
        Self::decode(root_dir, &raw)
    }
}

} // verus!
