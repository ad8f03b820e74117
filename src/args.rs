use vstd::prelude::*;
use crate::text::utf8_of;

verus! {

broadcast use vstd::slice::group_slice_axioms;

/// The ASCII hyphen that starts a flag.
pub const DASH: u8 = 45;

/// The options that the command line knows.
#[derive(Clone, Copy, PartialEq, Eq, Structural, Debug)]
pub enum OptionKey {
    Help,
    Path,
    Name,
    Regex,
    Mime,
}

/// The word after `--` that names an option, in ASCII:
/// `help`, `path`, `name`, `regex`, `mime`.
pub open spec fn long_word(k: OptionKey) -> Seq<u8> {
    match k {
        OptionKey::Help => seq![104u8, 101, 108, 112],
        OptionKey::Path => seq![112u8, 97, 116, 104],
        OptionKey::Name => seq![110u8, 97, 109, 101],
        OptionKey::Regex => seq![114u8, 101, 103, 101, 120],
        OptionKey::Mime => seq![109u8, 105, 109, 101],
    }
}

/// The letter after `-` that names an option, in ASCII: `h`, `p`, `n`, `r`, `m`.
pub open spec fn short_letter(k: OptionKey) -> u8 {
    match k {
        OptionKey::Help => 104,
        OptionKey::Path => 112,
        OptionKey::Name => 110,
        OptionKey::Regex => 114,
        OptionKey::Mime => 109,
    }
}

/// The option whose long word is `word`, if any.
pub open spec fn long_key(word: Seq<u8>) -> Option<OptionKey> {
    if word == long_word(OptionKey::Help) {
        Some(OptionKey::Help)
    } else if word == long_word(OptionKey::Path) {
        Some(OptionKey::Path)
    } else if word == long_word(OptionKey::Name) {
        Some(OptionKey::Name)
    } else if word == long_word(OptionKey::Regex) {
        Some(OptionKey::Regex)
    } else if word == long_word(OptionKey::Mime) {
        Some(OptionKey::Mime)
    } else {
        None
    }
}

/// The option whose short letter is the whole of `rest`, if any.
pub open spec fn short_key(rest: Seq<u8>) -> Option<OptionKey> {
    if rest.len() != 1 {
        None
    } else if rest[0] == short_letter(OptionKey::Help) {
        Some(OptionKey::Help)
    } else if rest[0] == short_letter(OptionKey::Path) {
        Some(OptionKey::Path)
    } else if rest[0] == short_letter(OptionKey::Name) {
        Some(OptionKey::Name)
    } else if rest[0] == short_letter(OptionKey::Regex) {
        Some(OptionKey::Regex)
    } else if rest[0] == short_letter(OptionKey::Mime) {
        Some(OptionKey::Mime)
    } else {
        None
    }
}

/// The option that a command-line token names: `--word` or `-letter`.
/// Any other token, and a flag that names no known option, names none.
pub open spec fn key_of(token: Seq<char>) -> Option<OptionKey> {
    let b = utf8_of(token);
    if b.len() >= 2 && b[0] == DASH && b[1] == DASH {
        long_key(b.skip(2))
    } else if b.len() >= 1 && b[0] == DASH {
        short_key(b.skip(1))
    } else {
        None
    }
}

/// The value that option `k` gets from the tokens before index `n`: the token
/// after the last flag naming `k` that has a token after it.
pub open spec fn value_for(args: Seq<Seq<char>>, k: OptionKey, n: int) -> Option<Seq<char>>
    decreases n,
{
    if n <= 0 {
        None
    } else if n < args.len() && key_of(args[n - 1]) == Some(k) {
        Some(args[n])
    } else {
        value_for(args, k, n - 1)
    }
}

/// The characters of each argument.
pub open spec fn args_view(args: Seq<String>) -> Seq<Seq<char>> {
    args.map_values(|s: String| s@)
}

/// Whether the arguments ask for the usage text: fewer than two of them, or a
/// first one that is `--help` or `-h`.
pub open spec fn wants_usage(args: Seq<Seq<char>>) -> bool {
    args.len() < 2 || key_of(args[0]) == Some(OptionKey::Help)
}

/// The characters of an optional string.
pub open spec fn opt_view(o: Option<String>) -> Option<Seq<char>> {
    match o {
        Some(s) => Some(s@),
        None => None,
    }
}

/// The resolved options, each the value given to it last.
pub struct Options {
    pub help: Option<String>,
    pub path: Option<String>,
    pub name: Option<String>,
    pub regex: Option<String>,
    pub mime: Option<String>,
}

impl Options {
    pub open spec fn value(&self, k: OptionKey) -> Option<Seq<char>> {
        match k {
            OptionKey::Help => opt_view(self.help),
            OptionKey::Path => opt_view(self.path),
            OptionKey::Name => opt_view(self.name),
            OptionKey::Regex => opt_view(self.regex),
            OptionKey::Mime => opt_view(self.mime),
        }
    }

    fn set(&mut self, k: OptionKey, v: String)
        ensures
            forall|j: OptionKey|
                #[trigger] final(self).value(j) == if j == k {
                    Some(v@)
                } else {
                    old(self).value(j)
                },
    {
        match k {
            OptionKey::Help => self.help = Some(v),
            OptionKey::Path => self.path = Some(v),
            OptionKey::Name => self.name = Some(v),
            OptionKey::Regex => self.regex = Some(v),
            OptionKey::Mime => self.mime = Some(v),
        }
    }
}

/// What the command line asks for.
pub enum Parsed {
    Usage,
    Search(Options),
}

fn long_word_bytes(k: OptionKey) -> (r: Vec<u8>)
    ensures
        r@ == long_word(k),
{
    match k {
        OptionKey::Help => vec![104u8, 101, 108, 112],
        OptionKey::Path => vec![112u8, 97, 116, 104],
        OptionKey::Name => vec![110u8, 97, 109, 101],
        OptionKey::Regex => vec![114u8, 101, 103, 101, 120],
        OptionKey::Mime => vec![109u8, 105, 109, 101],
    }
}

fn short_letter_byte(k: OptionKey) -> (r: u8)
    ensures
        r == short_letter(k),
{
    match k {
        OptionKey::Help => 104,
        OptionKey::Path => 112,
        OptionKey::Name => 110,
        OptionKey::Regex => 114,
        OptionKey::Mime => 109,
    }
}

fn tail_equals(t: &[u8], from: usize, word: &Vec<u8>) -> (r: bool)
    requires
        from <= t@.len(),
    ensures
        r == (t@.skip(from as int) == word@),
{
    let n = t.len();
    if n - from != word.len() {
        assert(t@.skip(from as int).len() != word@.len());
        return false;
    }
    let mut j: usize = 0;
    while j < word.len()
        invariant
            from <= n,
            n == t@.len(),
            n - from == word@.len(),
            j <= word@.len(),
            forall|i: int| 0 <= i < j ==> t@[from + i] == word@[i],
        decreases word@.len() - j,
    {
        if t[from + j] != word[j] {
            assert(t@.skip(from as int)[j as int] != word@[j as int]);
            return false;
        }
        j = j + 1;
    }
    assert(t@.skip(from as int) =~= word@);
    true
}

fn long_key_exec(t: &[u8]) -> (r: Option<OptionKey>)
    requires
        2 <= t@.len(),
    ensures
        r == long_key(t@.skip(2)),
{
    if tail_equals(t, 2, &long_word_bytes(OptionKey::Help)) {
        Some(OptionKey::Help)
    } else if tail_equals(t, 2, &long_word_bytes(OptionKey::Path)) {
        Some(OptionKey::Path)
    } else if tail_equals(t, 2, &long_word_bytes(OptionKey::Name)) {
        Some(OptionKey::Name)
    } else if tail_equals(t, 2, &long_word_bytes(OptionKey::Regex)) {
        Some(OptionKey::Regex)
    } else if tail_equals(t, 2, &long_word_bytes(OptionKey::Mime)) {
        Some(OptionKey::Mime)
    } else {
        None
    }
}

fn short_key_exec(t: &[u8]) -> (r: Option<OptionKey>)
    requires
        1 <= t@.len(),
    ensures
        r == short_key(t@.skip(1)),
{
    if t.len() != 2 {
        return None;
    }
    let c = t[1];
    assert(t@.skip(1)[0] == c);
    if c == short_letter_byte(OptionKey::Help) {
        Some(OptionKey::Help)
    } else if c == short_letter_byte(OptionKey::Path) {
        Some(OptionKey::Path)
    } else if c == short_letter_byte(OptionKey::Name) {
        Some(OptionKey::Name)
    } else if c == short_letter_byte(OptionKey::Regex) {
        Some(OptionKey::Regex)
    } else if c == short_letter_byte(OptionKey::Mime) {
        Some(OptionKey::Mime)
    } else {
        None
    }
}

/// The option that `token` names, as `key_of` states it.
pub fn option_key(token: &str) -> (r: Option<OptionKey>)
    ensures
        r == key_of(token@),
{
    let b = token.as_bytes();
    assert(b@ == utf8_of(token@));
    let n = b.len();
    if n >= 2 && b[0] == DASH && b[1] == DASH {
        long_key_exec(b)
    } else if n >= 1 && b[0] == DASH {
        short_key_exec(b)
    } else {
        None
    }
}

/// Resolves the arguments that follow the program name. Each flag takes the
/// token after it as its value, whatever that token is; a flag with nothing
/// after it, and a flag naming no known option, are passed over.
pub fn parse_arguments(args: &Vec<String>) -> (r: Parsed)
    ensures
        r is Usage <==> wants_usage(args_view(args@)),
        r matches Parsed::Search(o) ==> forall|k: OptionKey|
            #[trigger] o.value(k) == value_for(args_view(args@), k, args@.len() as int),
{
    let ghost v = args_view(args@);
    if args.len() < 2 {
        return Parsed::Usage;
    }
    assert(v[0] == args@[0]@);
    if matches!(option_key(args[0].as_str()), Some(OptionKey::Help)) {
        return Parsed::Usage;
    }
    let mut opts = Options { help: None, path: None, name: None, regex: None, mime: None };
    let mut i: usize = 0;
    while i < args.len() - 1
        invariant
            v == args_view(args@),
            2 <= args@.len(),
            i + 1 <= args@.len(),
            forall|k: OptionKey| #[trigger] opts.value(k) == value_for(v, k, i as int),
        decreases args@.len() - i,
    {
        let key = option_key(args[i].as_str());
        match key {
            Some(k) => {
                opts.set(k, args[i + 1].clone());
            },
            None => {},
        }
        i = i + 1;
        assert forall|k: OptionKey| #[trigger] opts.value(k) == value_for(v, k, i as int) by {
            assert(v[i - 1] == args@[i - 1]@);
            assert(v[i as int] == args@[i as int]@);
        }
    }
    assert forall|k: OptionKey| #[trigger] opts.value(k) == value_for(v, k, args@.len() as int) by {
        assert(value_for(v, k, args@.len() as int) == value_for(v, k, i as int));
    }
    Parsed::Search(opts)
}

} // verus!
