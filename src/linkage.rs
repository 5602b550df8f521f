use vstd::prelude::*;
use vstd::string::*;

verus! {

/// One linkable output of the native build.
#[derive(Clone, Copy, PartialEq, Eq, Structural, Debug)]
pub enum OutputLib {
    RustWrapper,
    Crypto,
    Ssl,
}

/// Whether the native libraries are linked statically or dynamically.
#[derive(Clone, Copy, PartialEq, Eq, Structural, Debug)]
pub enum OutputLibType {
    Static,
    Dynamic,
}

/// Whether `c` is the letter `lower` or its upper-case form `upper`.
pub open spec fn either_case(c: char, lower: char, upper: char) -> bool {
    c == lower || c == upper
}

/// A linkage override selects dynamic linkage when it begins, ignoring case,
/// with `0`, `n` or `off`.
pub open spec fn selects_dynamic(v: Seq<char>) -> bool {
    ||| (v.len() >= 1 && (v[0] == '0' || either_case(v[0], 'n', 'N')))
    ||| (v.len() >= 3 && either_case(v[0], 'o', 'O') && either_case(v[1], 'f', 'F')
        && either_case(v[2], 'f', 'F'))
}

/// The linkage that an optional override value selects.
pub open spec fn linkage_for(value: Option<Seq<char>>) -> OutputLibType {
    match value {
        Some(v) => if selects_dynamic(v) {
            OutputLibType::Dynamic
        } else {
            OutputLibType::Static
        },
        None => OutputLibType::Static,
    }
}

pub open spec fn lib_type_text(t: OutputLibType) -> Seq<char> {
    match t {
        OutputLibType::Static => "static"@,
        OutputLibType::Dynamic => "dylib"@,
    }
}

pub open spec fn base_name(lib: OutputLib) -> Seq<char> {
    match lib {
        OutputLib::Crypto => "crypto"@,
        OutputLib::Ssl => "ssl"@,
        OutputLib::RustWrapper => "rust_wrapper"@,
    }
}

/// The link name of `lib`, under an optional collision-avoiding prefix.
pub open spec fn lib_name(lib: OutputLib, prefix: Option<Seq<char>>) -> Seq<char> {
    match prefix {
        Some(p) => p + "_"@ + base_name(lib),
        None => base_name(lib),
    }
}

/// A value that spells `0`, `no` or `off`, ignoring case.
pub open spec fn negative_word(v: Seq<char>) -> bool {
    ||| v == seq!['0']
    ||| (v.len() == 2 && either_case(v[0], 'n', 'N') && either_case(v[1], 'o', 'O'))
    ||| (v.len() == 3 && either_case(v[0], 'o', 'O') && either_case(v[1], 'f', 'F')
        && either_case(v[2], 'f', 'F'))
}

/// The override `0`, `no` or `off`, in any case, selects dynamic linkage; an
/// unset override, or a value that does not begin with `0`, `n` or `off` in
/// any case, selects static linkage.
pub proof fn lemma_linkage_override(v: Seq<char>)
    ensures
        negative_word(v) ==> linkage_for(Some(v)) == OutputLibType::Dynamic,
        !selects_dynamic(v) ==> linkage_for(Some(v)) == OutputLibType::Static,
        linkage_for(None) == OutputLibType::Static,
{
}

impl OutputLibType {
    /// The linkage selected by the value of the static/dynamic override, if
    /// it is set.
    pub fn from_static_override(value: Option<&str>) -> (r: OutputLibType)
        ensures
            r == linkage_for(
                match value {
                    Some(v) => Some(v@),
                    None => None,
                },
            ),
    {
        match value {
            None => OutputLibType::Static,
            Some(v) => {
                let n = v.unicode_len();
                if n >= 1 {
                    let c0 = v.get_char(0);
                    if c0 == '0' || c0 == 'n' || c0 == 'N' {
                        return OutputLibType::Dynamic;
                    }
                    if n >= 3 {
                        let c1 = v.get_char(1);
                        let c2 = v.get_char(2);
                        if (c0 == 'o' || c0 == 'O') && (c1 == 'f' || c1 == 'F') && (c2 == 'f'
                            || c2 == 'F') {
                            return OutputLibType::Dynamic;
                        }
                    }
                }
                OutputLibType::Static
            },
        }
    }

    /// The linkage kind as the consuming build graph spells it.
    pub fn rust_lib_type(&self) -> (r: &'static str)
        ensures
            r@ == lib_type_text(*self),
    {
        match self {
            OutputLibType::Static => "static",
            OutputLibType::Dynamic => "dylib",
        }
    }
}

impl OutputLib {
    pub fn libname(self, prefix: Option<&str>) -> (r: String)
        ensures
            r@ == lib_name(
                self,
                match prefix {
                    Some(p) => Some(p@),
                    None => None,
                },
            ),
    {
        let name = match self {
            OutputLib::Crypto => "crypto",
            OutputLib::Ssl => "ssl",
            OutputLib::RustWrapper => "rust_wrapper",
        };
        match prefix {
            Some(p) => {
                let mut r = String::from_str(p);
                r.append("_");
                r.append(name);
                r
            },
            None => String::from_str(name),
        }
    }
}

/// `version` with each `.` turned into `_`.
pub open spec fn underscored(version: Seq<char>) -> Seq<char> {
    version.map_values(|c: char| if c == '.' { '_' } else { c })
}

/// The symbol prefix derived from the package version.
pub open spec fn version_prefix(version: Seq<char>) -> Seq<char> {
    "aws_lc_"@ + underscored(version)
}

pub fn prefix_string(version: &str) -> (r: String)
    ensures
        r@ == version_prefix(version@),
{
    let mut r = String::from_str("aws_lc_");
    let n = version.unicode_len();
    let mut i: usize = 0;
    proof {
        reveal_strlit("_");
    }
    while i < n
        invariant
            n == version@.len(),
            i <= n,
            "_"@ == seq!['_'],
            r@ == "aws_lc_"@ + underscored(version@.take(i as int)),
        decreases n - i,
    {
        let c = version.get_char(i);
        if c == '.' {
            r.append("_");
        } else {
            r.append(version.substring_char(i, i + 1));
        }
        assert(underscored(version@.take(i + 1)) =~= underscored(version@.take(i as int)).push(
            if c == '.' {
                '_'
            } else {
                c
            },
        ));
        i = i + 1;
    }
    assert(version@.take(n as int) == version@);
    r
}

/// The value of an environment flag, or `default` when it is unset.
pub fn get_env_flag(value: Option<&str>, default: &str) -> (r: String)
    ensures
        r@ == match value {
            Some(v) => v@,
            None => default@,
        },
{
    match value {
        Some(v) => String::from_str(v),
        None => String::from_str(default),
    }
}

/// Whether a toggle's value turns it on: exactly `1`.
pub open spec fn toggle_on(value: Option<Seq<char>>) -> bool {
    value == Some("1"@)
}

pub fn is_internal_generate_enabled(value: Option<&str>) -> (r: bool)
    ensures
        r == toggle_on(
            match value {
                Some(v) => Some(v@),
                None => None,
            },
        ),
{
    flag_is_one(value)
}

pub fn is_private_api_enabled(value: Option<&str>) -> (r: bool)
    ensures
        r == toggle_on(
            match value {
                Some(v) => Some(v@),
                None => None,
            },
        ),
{
    flag_is_one(value)
}

fn flag_is_one(value: Option<&str>) -> (r: bool)
    ensures
        r == toggle_on(
            match value {
                Some(v) => Some(v@),
                None => None,
            },
        ),
{
    let flag = get_env_flag(value, "0");
    proof {
        reveal_strlit("0");
        reveal_strlit("1");
    }
    let r = crate::text::str_eq(flag.as_str(), "1");
    proof {
        if value is None {
            assert(flag@[0] != "1"@[0]);
        }
    }
    r
}

} // verus!
