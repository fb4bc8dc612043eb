//! Paths the processors act on, as a base directory followed by components, and
//! the file names they derive from download names.

use vstd::prelude::*;
use crate::text::push_char;

verus! {

/// A path: a base directory with components appended to it one by one, as
/// `Path::join` appends them.
#[derive(Debug, Clone)]
pub struct FsPath {
    base: String,
    components: Vec<String>,
}

/// The abstract content of a path.
pub struct FsPathView {
    pub base: Seq<char>,
    pub components: Seq<Seq<char>>,
}

/// The abstract content of a list of strings.
pub open spec fn strings_view(v: Seq<String>) -> Seq<Seq<char>> {
    v.map_values(|s: String| s@)
}

impl View for FsPath {
    type V = FsPathView;

    closed spec fn view(&self) -> FsPathView {
        FsPathView { base: self.base@, components: strings_view(self.components@) }
    }
}

/// The path `path` with `component` appended.
pub open spec fn joined(path: FsPathView, component: Seq<char>) -> FsPathView {
    FsPathView { base: path.base, components: path.components.push(component) }
}

/// The path that is just the base directory `base`.
pub open spec fn base_path(base: Seq<char>) -> FsPathView {
    FsPathView { base, components: Seq::empty() }
}

impl FsPath {
    /// The path that is just the directory `base`.
    pub fn new(base: &str) -> (res: FsPath)
        ensures
            res@ == base_path(base@),
    {
        let res = FsPath { base: String::from_str(base), components: Vec::new() };
        assert(res@.components =~= Seq::<Seq<char>>::empty());
        res
    }

    /// This path with `component` appended.
    pub fn join(&self, component: &str) -> (res: FsPath)
        ensures
            res@ == joined(self@, component@),
    {
        let mut components: Vec<String> = Vec::new();
        let mut i: usize = 0;
        while i < self.components.len()
            invariant
                i <= self.components.len(),
                strings_view(components@) == strings_view(self.components@.take(i as int)),
            decreases self.components.len() - i,
        {
            let c = self.components[i].clone();
            proof {
                assert(strings_view(components@.push(c)) =~= strings_view(components@).push(c@));
                assert(self.components@.take(i + 1) =~= self.components@.take(i as int).push(c));
                assert(strings_view(self.components@.take(i + 1)) =~= strings_view(
                    self.components@.take(i as int),
                ).push(c@));
            }
            components.push(c);
            i = i + 1;
        }
        let last = String::from_str(component);
        proof {
            assert(self.components@.take(i as int) =~= self.components@);
            assert(strings_view(components@.push(last)) =~= strings_view(components@).push(
                last@,
            ));
        }
        components.push(last);
        FsPath { base: self.base.clone(), components }
    }

    /// This path, rebuilt with the same content.
    pub fn duplicate(&self) -> (res: FsPath)
        ensures
            res@ == self@,
    {
        let mut components: Vec<String> = Vec::new();
        let mut i: usize = 0;
        while i < self.components.len()
            invariant
                i <= self.components.len(),
                strings_view(components@) == strings_view(self.components@.take(i as int)),
            decreases self.components.len() - i,
        {
            let c = self.components[i].clone();
            proof {
                assert(strings_view(components@.push(c)) =~= strings_view(components@).push(c@));
                assert(self.components@.take(i + 1) =~= self.components@.take(i as int).push(c));
                assert(strings_view(self.components@.take(i + 1)) =~= strings_view(
                    self.components@.take(i as int),
                ).push(c@));
            }
            components.push(c);
            i = i + 1;
        }
        proof {
            assert(self.components@.take(i as int) =~= self.components@);
        }
        FsPath { base: self.base.clone(), components }
    }

    /// The base directory.
    pub fn base(&self) -> (res: &str)
        ensures
            res@ == self@.base,
    {
        self.base.as_str()
    }

    /// The components appended to the base directory, in order.
    pub fn components(&self) -> (res: &[String])
        ensures
            strings_view(res@) == self@.components,
    {
        self.components.as_slice()
    }
}

/// The components of a path written one after the other, each after a `/`.
pub open spec fn components_text(components: Seq<Seq<char>>) -> Seq<char>
    decreases components.len(),
{
    if components.len() == 0 {
        Seq::empty()
    } else {
        components_text(components.drop_last()) + seq!['/'] + components.last()
    }
}

/// How a path is written: its base directory followed by each component after
/// a `/`.
pub open spec fn path_text(path: FsPathView) -> Seq<char> {
    path.base + components_text(path.components)
}

impl FsPath {
    /// The path written out (see [`path_text`]).
    pub fn display_text(&self) -> (res: String)
        ensures
            res@ == path_text(self@),
    {
        let mut out = String::new();
        out.append(self.base.as_str());
        let ghost cs = self@.components;
        let mut i: usize = 0;
        proof {
            assert(cs.take(0) =~= Seq::<Seq<char>>::empty());
            assert(out@ =~= self@.base + components_text(cs.take(0)));
        }
        while i < self.components.len()
            invariant
                i <= self.components.len(),
                cs == strings_view(self.components@),
                out@ == self@.base + components_text(cs.take(i as int)),
            decreases self.components.len() - i,
        {
            let ghost before = out@;
            push_char(&mut out, '/');
            out.append(self.components[i].as_str());
            proof {
                assert(cs.take(i + 1).drop_last() =~= cs.take(i as int));
                assert(cs.take(i + 1).last() == cs[i as int]);
                assert(cs[i as int] == self.components@[i as int]@);
                assert(out@ =~= self@.base + components_text(cs.take(i + 1)));
            }
            i = i + 1;
        }
        proof {
            assert(cs.take(i as int) =~= cs);
        }
        out
    }
}

/// The characters that a sanitized file name never contains: the path and
/// shell metacharacters `/ ? < > \ : * | "` and the control characters
/// `U+0000..=U+001F` and `U+0080..=U+009F`.
pub open spec fn is_unsafe_name_char(c: char) -> bool {
    ||| c == '/'
    ||| c == '?'
    ||| c == '<'
    ||| c == '>'
    ||| c == '\\'
    ||| c == ':'
    ||| c == '*'
    ||| c == '|'
    ||| c == '"'
    ||| (c as u32) <= 0x1f
    ||| (0x80 <= (c as u32) && (c as u32) <= 0x9f)
}

/// Whether `name` is safe as a file name: it has at most 255 characters and
/// none of them is unsafe.
pub open spec fn is_safe_name(name: Seq<char>) -> bool {
    &&& name.len() <= 255
    &&& forall|i: int| 0 <= i < name.len() ==> !is_unsafe_name_char(#[trigger] name[i])
}

/// `name` with every unsafe character removed.
pub open spec fn without_unsafe_chars(name: Seq<char>) -> Seq<char> {
    name.filter(|c: char| !is_unsafe_name_char(c))
}

/// Whether `res` is a possible result of sanitizing `name`: a prefix, at most
/// 255 characters long, of `name` with its unsafe characters removed.
pub open spec fn is_sanitized_from(res: Seq<char>, name: Seq<char>) -> bool {
    &&& res.len() <= 255
    &&& res.is_prefix_of(without_unsafe_chars(name))
}

/// A sanitized name is safe as a file name.
pub proof fn lemma_sanitized_is_safe(res: Seq<char>, name: Seq<char>)
    requires
        is_sanitized_from(res, name),
    ensures
        is_safe_name(res),
{
    broadcast use vstd::seq_lib::group_filter_ensures;

    let pred = |c: char| !is_unsafe_name_char(c);
    assert forall|i: int| 0 <= i < res.len() implies !is_unsafe_name_char(#[trigger] res[i]) by {
        assert(res[i] == name.filter(pred)[i]);
        assert(pred(name.filter(pred)[i]));
    }
}

/// `c` with an ASCII capital letter turned into its small letter.
pub open spec fn ascii_lower(c: char) -> char {
    if 'A' <= c && c <= 'Z' {
        ((c as u32) + 32) as char
    } else {
        c
    }
}

/// Whether `name` ends right after its first `k` characters, or continues
/// there with a dot (an extension).
pub open spec fn word_ends_at(name: Seq<char>, k: int) -> bool {
    name.len() == k || (name.len() > k && name[k] == '.')
}

/// Whether `name` is a reserved device name of Windows (`con`, `prn`, `aux`,
/// `nul`, `com0`–`com9`, `lpt0`–`lpt9`), in any case, with or without an
/// extension.
pub open spec fn is_device_name(name: Seq<char>) -> bool {
    let l = name.map_values(|c: char| ascii_lower(c));
    ||| l.len() >= 3 && word_ends_at(l, 3) && (l.take(3) == seq!['c', 'o', 'n'] || l.take(3) == seq![
        'p',
        'r',
        'n',
    ] || l.take(3) == seq!['a', 'u', 'x'] || l.take(3) == seq!['n', 'u', 'l'])
    ||| l.len() >= 4 && word_ends_at(l, 4) && (l.take(3) == seq!['c', 'o', 'm'] || l.take(3)
        == seq!['l', 'p', 't']) && '0' <= l[3] && l[3] <= '9'
}

/// Whether sanitizing keeps a name free of unsafe characters unchanged on
/// every platform: it is not empty and has at most 63 characters (so at most
/// 255 bytes), is not made only of dots, does not end with a dot or a space,
/// and is no reserved device name.
pub open spec fn plain_name(name: Seq<char>) -> bool {
    &&& 0 < name.len() <= 63
    &&& exists|i: int| 0 <= i < name.len() && name[i] != '.'
    &&& name.last() != '.'
    &&& name.last() != ' '
    &&& !is_device_name(name)
}

/// Makes a download name safe to use as a file name (`sanitize_filename::sanitize`).
///
/// Claimed of `sanitize_filename::sanitize`: it removes the unsafe characters,
/// may then drop a tail of what is left (a name made only of dots, and on
/// Windows a reserved device name or trailing dots and spaces) and truncates
/// to 255 bytes, so its result is a prefix of the name without its unsafe
/// characters, at most 255 characters long; and when what is left is a
/// [`plain_name`], nothing is dropped and the result is exactly that. Which
/// prefix it is for other names is not stated: it depends on the platform the
/// program is built for.
#[verifier::external_body]
pub(crate) fn sanitize(name: &str) -> (res: String)
    ensures
        is_sanitized_from(res@, name@),
        plain_name(without_unsafe_chars(name@)) ==> res@ == without_unsafe_chars(name@),
{
    sanitize_filename::sanitize(name)
}

} // verus!
