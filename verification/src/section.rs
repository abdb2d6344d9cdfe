//! The names of the sections of a BPF object file.
//!
//! The loader finds the programs and maps of an object file by the sections
//! that they lie in. An item of a BPF program is placed in a section by an
//! attribute whose argument is the section's name, written as a string
//! literal.
use vstd::prelude::*;
use vstd::string::{StrSliceExecFns, StringExecFns};

verus! {

/// Whether `c` can stand in the name of a section: every character but the
/// double quote, which belongs to the literal and not to the name.
pub open spec fn is_name_char(c: char) -> bool {
    c != '"'
}

/// `text` without its double quotes.
pub open spec fn without_quotes(text: Seq<char>) -> Seq<char> {
    text.filter(|c: char| is_name_char(c))
}

/// Taking the quotes off a text that ends in `c` takes them off what stands
/// before `c`, and keeps `c` unless it is a quote.
proof fn lemma_without_quotes_push(text: Seq<char>, c: char)
    ensures
        without_quotes(text.push(c)) == if is_name_char(c) {
            without_quotes(text).push(c)
        } else {
            without_quotes(text)
        },
{
    reveal(Seq::filter);
    assert(text.push(c).drop_last() == text);
}

/// `text` without its double quotes.
pub fn strip_quotes(text: &str) -> (name: String)
    ensures
        name@ == without_quotes(text@),
{
    let len: usize = text.unicode_len();
    let mut name = String::new();
    let mut i: usize = 0;
    proof {
        reveal(Seq::filter);
    }
    while i < len
        invariant
            i <= len,
            len == text@.len(),
            name@ == without_quotes(text@.take(i as int)),
        decreases len - i,
    {
        let c = text.get_char(i);
        proof {
            lemma_without_quotes_push(text@.take(i as int), c);
            assert(text@.take(i + 1) == text@.take(i as int).push(c));
        }
        if c != '"' {
            let one = text.substring_char(i, i + 1);
            assert(one@ == seq![c]);
            name.append(one);
            assert(name@ == without_quotes(text@.take(i as int)).push(c));
        }
        i += 1;
    }
    assert(text@.take(i as int) == text@);
    name
}

/// The name that the arguments of a section attribute give. Each argument is
/// the text of a literal, or `None` for an argument that is no literal. There
/// is no name where an argument is no literal; else the name is the text of
/// the last literal without its quotes, and empty where there is no
/// argument.
pub fn link_name(args: &[Option<&str>]) -> (r: Option<String>)
    ensures
        r is None <==> exists|i: int| 0 <= i < args@.len() && args@[i] is None,
        r matches Some(name) ==> name@ == if args@.len() == 0 {
            Seq::<char>::empty()
        } else {
            without_quotes(args@.last()->Some_0@)
        },
{
    let mut link_name = String::new();
    let mut i: usize = 0;
    while i < args.len()
        invariant
            i <= args@.len(),
            forall|k: int| 0 <= k < i ==> args@[k] is Some,
            link_name@ == if i == 0 {
                Seq::<char>::empty()
            } else {
                without_quotes(args@[i - 1]->Some_0@)
            },
        decreases args@.len() - i,
    {
        match args[i] {
            Some(literal) => {
                link_name = strip_quotes(literal);
            },
            None => {
                return None;
            },
        }
        i += 1;
    }
    Some(link_name)
}

} // verus!
