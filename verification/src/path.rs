use vstd::prelude::*;
use vstd::string::*;

verus! {

/// Why a `require` path was refused.
#[derive(Debug, Clone, Copy, PartialEq, Eq)]
pub enum RequireError {
    /// The path starts with `@` but has no `/` after the alias.
    MissingSlash,
    /// The path names an alias (`@alias/...`); aliases are not resolved yet.
    AliasUnsupported,
    /// The path starts with neither `@`, `./` nor `../`.
    MissingPrefix,
}

/// Whether `s` holds the character `c`.
pub open spec fn has_char(s: Seq<char>, c: char) -> bool {
    exists|i: int| 0 <= i < s.len() && s[i] == c
}

/// Whether `p` starts with the alias marker `@`.
pub open spec fn is_alias_path(p: Seq<char>) -> bool {
    p.len() > 0 && p[0] == '@'
}

/// Splits `@alias/rest` into the alias and the rest of the path.
///
/// Returns `Ok(None)` for a path that does not start with `@`, and an error
/// for an `@` path without a `/`. The alias is everything between the `@` and
/// the first `/`.
pub fn strip_alias(path: &str) -> (res: Result<Option<(String, String)>, RequireError>)
    ensures
        res is Ok && res->Ok_0 is None <==> !is_alias_path(path@),
        res is Err <==> is_alias_path(path@) && !has_char(path@.drop_first(), '/'),
        res is Err ==> res->Err_0 == RequireError::MissingSlash,
        res matches Ok(Some((alias, rest))) ==> {
            &&& path@ == seq!['@'] + alias@ + seq!['/'] + rest@
            &&& !has_char(alias@, '/')
        },
{
    let n = path.unicode_len();
    if n == 0 || path.get_char(0) != '@' {
        return Ok(None);
    }
    let mut i: usize = 1;
    while i < n
        invariant
            n == path@.len(),
            1 <= i <= n,
            path@[0] == '@',
            forall|j: int| 1 <= j < i ==> path@[j] != '/',
        decreases n - i,
    {
        if path.get_char(i) == '/' {
            let alias = String::from_str(path.substring_char(1, i));
            let rest = String::from_str(path.substring_char(i + 1, n));
            proof {
                assert(path@ =~= seq!['@'] + alias@ + seq!['/'] + rest@);
                assert forall|j: int| 0 <= j < alias@.len() implies alias@[j] != '/' by {
                    assert(alias@[j] == path@[j + 1]);
                }
                assert(has_char(path@.drop_first(), '/')) by {
                    assert(path@.drop_first()[i - 1] == '/');
                }
            }
            return Ok(Some((alias, rest)));
        }
        i = i + 1;
    }
    proof {
        assert forall|j: int| 0 <= j < path@.drop_first().len() implies path@.drop_first()[j] != '/' by {
            assert(path@.drop_first()[j] == path@[j + 1]);
        }
    }
    Err(RequireError::MissingSlash)
}


impl RequireError {
    /// The message that a Lua script sees for this error.
    pub fn message(&self) -> (res: String)
        ensures
            res@ == match self {
                RequireError::MissingSlash => "Require path is missing '/'"@,
                RequireError::AliasUnsupported => "Aliases are not supported in requires yet"@,
                RequireError::MissingPrefix => "must have either \"@\", \"./\", or \"../\" prefix"@,
            },
    {
        match self {
            RequireError::MissingSlash => String::from_str("Require path is missing '/'"),
            RequireError::AliasUnsupported => String::from_str(
                "Aliases are not supported in requires yet",
            ),
            RequireError::MissingPrefix => String::from_str(
                "must have either \"@\", \"./\", or \"../\" prefix",
            ),
        }
    }
}

/// Whether the first component of `p` is `.` or `..`, that is, whether `p`
/// is `.`, `..`, or starts with `./` or `../`.
pub open spec fn is_explicit_relative(p: Seq<char>) -> bool {
    ||| p == seq!['.']
    ||| p == seq!['.', '.']
    ||| (p.len() >= 2 && p[0] == '.' && p[1] == '/')
    ||| (p.len() >= 3 && p[0] == '.' && p[1] == '.' && p[2] == '/')
}

/// Checks that a non-alias `require` path names its module relative to the
/// requiring script (`./` or `../`).
pub fn has_explicit_prefix(path: &str) -> (res: bool)
    ensures
        res == is_explicit_relative(path@),
{
    let n = path.unicode_len();
    if n == 0 || path.get_char(0) != '.' {
        return false;
    }
    if n == 1 {
        assert(path@ =~= seq!['.']);
        return true;
    }
    let c1 = path.get_char(1);
    if c1 == '/' {
        return true;
    }
    if c1 != '.' {
        return false;
    }
    if n == 2 {
        assert(path@ =~= seq!['.', '.']);
        return true;
    }
    assert(path@ != seq!['.'] && path@ != seq!['.', '.']) by {
        assert(path@.len() != 1 && path@.len() != 2);
    }
    path.get_char(2) == '/'
}

/// The path that `path_clean::clean` makes of `p`: `.` and `..` components
/// resolved lexically and repeated separators merged.
pub uninterp spec fn cleaned_path(p: Seq<char>) -> Seq<char>;

/// Lexically cleans a path with `path_clean::clean`.
///
/// Trusted: the result is `cleaned_path` of the argument; `path_clean::clean`
/// depends on its argument alone. A path built from a `&str` is valid UTF-8,
/// and so is every path that `clean` assembles from its components, so the
/// conversion back to a `String` loses nothing.
#[verifier::external_body]
pub fn clean_path(path: &str) -> (res: String)
    ensures
        res@ == cleaned_path(path@),
{
    path_clean::clean(path).to_string_lossy().into_owned()
}

/// Whether the last component of `p` names a file: it is neither empty (an
/// empty path or a trailing `/`) nor `.` nor `..`.
pub open spec fn ends_in_name(p: Seq<char>) -> bool {
    let n = p.len() as int;
    &&& n > 0
    &&& p[n - 1] != '/'
    &&& !(p[n - 1] == '.' && (n == 1 || p[n - 2] == '/'))
    &&& !(n >= 2 && p[n - 1] == '.' && p[n - 2] == '.' && (n == 2 || p[n - 3] == '/'))
}

/// `p` with `.ext` appended to its file name, or `p` unchanged when its last
/// component names no file.
pub open spec fn with_extension(p: Seq<char>, ext: Seq<char>) -> Seq<char> {
    if ends_in_name(p) {
        p + seq!['.'] + ext
    } else {
        p
    }
}

/// Appends the extension `ext` to the file name of `path`.
pub fn append_extension(path: String, ext: &str) -> (res: String)
    ensures
        res@ == with_extension(path@, ext@),
{
    let n = path.as_str().unicode_len();
    if n == 0 {
        return path;
    }
    let last = path.as_str().get_char(n - 1);
    if last == '/' {
        return path;
    }
    if last == '.' {
        if n == 1 {
            return path;
        }
        let prev = path.as_str().get_char(n - 2);
        if prev == '/' {
            return path;
        }
        if prev == '.' && (n == 2 || path.as_str().get_char(n - 3) == '/') {
            return path;
        }
    }
    assert(ends_in_name(path@));
    let dotted = path.concat(".");
    proof {
        reveal_strlit(".");
    }
    dotted.concat(ext)
}

/// The module file that `require(path)` loads, relative to the directory of
/// the requiring script, or why the path is refused.
pub open spec fn require_target(p: Seq<char>) -> Result<Seq<char>, RequireError> {
    if is_alias_path(p) {
        if has_char(p.drop_first(), '/') {
            Err(RequireError::AliasUnsupported)
        } else {
            Err(RequireError::MissingSlash)
        }
    } else if !is_explicit_relative(p) {
        Err(RequireError::MissingPrefix)
    } else {
        Ok(with_extension(cleaned_path(p), "luau"@))
    }
}

/// Resolves the path given to `require` into the module file to load,
/// relative to the directory of the requiring script: aliases are refused,
/// other paths must start with `./` or `../`, and the path is cleaned and
/// given the `luau` extension.
pub fn resolve_require(path: &str) -> (res: Result<String, RequireError>)
    ensures
        res matches Ok(r) ==> require_target(path@) == Ok::<Seq<char>, RequireError>(r@),
        res matches Err(e) ==> require_target(path@) == Err::<Seq<char>, RequireError>(e),
{
    match strip_alias(path) {
        Err(e) => Err(e),
        Ok(Some(_)) => Err(RequireError::AliasUnsupported),
        Ok(None) => {
            if !has_explicit_prefix(path) {
                Err(RequireError::MissingPrefix)
            } else {
                let cleaned = clean_path(path);
                Ok(append_extension(cleaned, "luau"))
            }
        },
    }
}

/// A `require` path is accepted only when it is `.`, `..`, or starts with
/// `./` or `../`; a path that names no alias and has neither prefix is
/// refused with `MissingPrefix`, an alias path is always refused, and an
/// accepted path resolves to its cleaned form with `.luau` appended to the
/// file name (or unchanged when it names no file).
pub proof fn law_require_needs_explicit_prefix(p: Seq<char>)
    ensures
        require_target(p) is Ok ==> {
            ||| p == seq!['.']
            ||| p == seq!['.', '.']
            ||| (p.len() >= 2 && p[0] == '.' && p[1] == '/')
            ||| (p.len() >= 3 && p[0] == '.' && p[1] == '.' && p[2] == '/')
        },
        (p.len() == 0 || p[0] != '@') && !(p == seq!['.'] || p == seq!['.', '.']
            || (p.len() >= 2 && p[0] == '.' && p[1] == '/')
            || (p.len() >= 3 && p[0] == '.' && p[1] == '.' && p[2] == '/'))
            ==> require_target(p) == Err::<Seq<char>, RequireError>(RequireError::MissingPrefix),
        p.len() > 0 && p[0] == '@' ==> require_target(p) is Err,
        require_target(p) matches Ok(r) ==> {
            let c = cleaned_path(p);
            ||| r == c + seq!['.', 'l', 'u', 'a', 'u']
            ||| r == c
        },
{
    reveal_strlit("luau");
    assert("luau"@ =~= seq!['l', 'u', 'a', 'u']);
    let c = cleaned_path(p);
    assert(c + seq!['.'] + "luau"@ =~= c + seq!['.', 'l', 'u', 'a', 'u']);
}

/// The extension is appended to a path that ends in a file name, and a path
/// that ends in no file name (empty, `/`, `.` or `..`) is left as it is.
pub proof fn law_extension_appended_to_names(p: Seq<char>, ext: Seq<char>)
    ensures
        with_extension(p, ext) == p + seq!['.'] + ext || with_extension(p, ext) == p,
        p.len() > 0 && p.last() != '/' && p.last() != '.' ==> with_extension(p, ext) == p + seq!['.'] + ext,
        p.len() == 0 || p.last() == '/' ==> with_extension(p, ext) == p,
        p == seq!['.'] || p == seq!['.', '.'] ==> with_extension(p, ext) == p,
{
}

} // verus!
