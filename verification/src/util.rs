//! Text helpers shared by the renderers.

use vstd::prelude::*;
use crate::address::Address;
use crate::model::table_text;
use crate::visualize::Visualize;

verus! {

/// The markup that stands for one character inside a table cell.
pub open spec fn escaped_char(c: char) -> Seq<char> {
    if c == '&' {
        seq!['&', 'a', 'm', 'p', ';']
    } else if c == '<' {
        seq!['&', 'l', 't', ';']
    } else if c == '>' {
        seq!['&', 'g', 't', ';']
    } else {
        seq![c]
    }
}

/// The text with each character replaced by the markup that stands for it.
pub open spec fn html_encoded(s: Seq<char>) -> Seq<char> {
    s.map_values(|c: char| escaped_char(c)).flatten()
}

/// What each of the strings holds, in their order.
pub open spec fn texts(strings: Seq<String>) -> Seq<Seq<char>> {
    strings.map_values(|s: String| s@)
}

/// `String::push` appends the one character to the end of the string.
pub assume_specification[ String::push ](s: &mut String, c: char)
    ensures
        final(s)@ == old(s)@.push(c),
;

/// `From<&str> for String` converts the string slice into a string that
/// holds the same text.
pub assume_specification<'a>[ <String as From<&'a str>>::from ](s: &str) -> (text: String)
    ensures
        text@ == s@,
;

/// Escapes the three characters that would otherwise be read as markup.
pub fn html_encode(s: &str) -> (encoded: String)
    ensures
        encoded@ == html_encoded(s@),
{
    let mut encoded = String::new();
    for c in it: s.chars()
        invariant
            it.seq() == s@,
            encoded@ == html_encoded(s@.take(it.index() as int)),
    {
        proof {
            reveal_strlit("&amp;");
            reveal_strlit("&lt;");
            reveal_strlit("&gt;");
            let before = s@.take(it.index() as int).map_values(|c: char| escaped_char(c));
            let upto = s@.take(it.index() + 1).map_values(|c: char| escaped_char(c));
            assert(upto == before.push(escaped_char(c)));
            before.lemma_flatten_push(escaped_char(c));
        }
        if c == '&' {
            encoded.append("&amp;");
        } else if c == '<' {
            encoded.append("&lt;");
        } else if c == '>' {
            encoded.append("&gt;");
        } else {
            encoded.push(c);
        }
    }
    proof {
        assert(s@.take(s@.len() as int) == s@);
    }
    encoded
}

/// Wraps the rows in a table. Without a row there is no table at all: the
/// DOT language has no table without rows.
pub fn render_table(table_rows: &[String]) -> (table: String)
    ensures
        table@ == table_text(texts(table_rows@)),
{
    if table_rows.len() == 0 {
        return String::new();
    }
    let mut table = String::from_str("<TABLE BORDER=\"0\" CELLBORDER=\"1\" CELLSPACING=\"0\">");
    let ghost opening = table@;
    let mut i: usize = 0;
    while i < table_rows.len()
        invariant
            i <= table_rows.len(),
            table@ == opening + texts(table_rows@.take(i as int)).flatten(),
        decreases table_rows.len() - i,
    {
        proof {
            let before = texts(table_rows@.take(i as int));
            assert(texts(table_rows@.take(i + 1)) == before.push(table_rows[i as int]@));
            before.lemma_flatten_push(table_rows[i as int]@);
        }
        table.append(table_rows[i].as_str());
        i += 1;
    }
    proof {
        assert(table_rows@.take(table_rows@.len() as int) == table_rows@);
    }
    table.append("</TABLE>");
    table
}

/// The identity of the value that `t` refers to, as text. It names where
/// the value lives, and is the same for as long as the value stays there.
pub fn address_of<T>(t: &T) -> (text: String)
    ensures
        exists|address: Address| call_ensures(Address::new::<T>, (t,), address) && text@ == address@,
{
    Address::new(t).to_string()
}

/// The name under which the type of the value is shown.
pub fn type_of<T: Visualize>(_t: &T) -> (name: String)
    ensures
        call_ensures(T::type_string, (), name),
{
    T::type_string()
}

} // verus!
