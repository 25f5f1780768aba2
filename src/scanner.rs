//! Text art for the splash screen: the lines of an art file, cut to the
//! screen's width.
use crate::text::{chars_of, has_prefix, starts_with};
use vstd::prelude::*;
use vstd::string::*;

verus! {

/// At most the first `width` characters of `line`.
pub open spec fn take_chars(line: Seq<char>, width: nat) -> Seq<char> {
    if line.len() <= width {
        line
    } else {
        line.subrange(0, width as int)
    }
}

/// The lines of an art file to show: those that are not directives (lines
/// starting with `?>=`), each cut to `width` characters and ended by a
/// newline.
pub open spec fn art_lines(lines: Seq<Seq<char>>, width: nat) -> Seq<Seq<char>>
    decreases lines.len(),
{
    if lines.len() == 0 {
        Seq::empty()
    } else {
        let rest = art_lines(lines.drop_last(), width);
        if has_prefix(lines.last(), "?>="@) {
            rest
        } else {
            rest.push(take_chars(lines.last(), width) + "\n"@)
        }
    }
}

/// The lines of an art file, read as `lines`, prepared for a screen
/// `width` characters wide.
pub fn parse_art(lines: &Vec<String>, width: usize) -> (r: Vec<String>)
    ensures
        r@.map_values(|l: String| l@) == art_lines(lines@.map_values(|l: String| l@), width as nat),
{
    let ghost lv = lines@.map_values(|l: String| l@);
    let directive = chars_of("?>=");
    let mut r: Vec<String> = Vec::new();
    let mut i: usize = 0;
    while i < lines.len()
        invariant
            lv == lines@.map_values(|l: String| l@),
            directive@ == "?>="@,
            i <= lines.len(),
            r@.map_values(|l: String| l@) == art_lines(lv.subrange(0, i as int), width as nat),
        decreases lines.len() - i,
    {
        let line = lines[i].as_str();
        let cs = chars_of(line);
        assert(lv.subrange(0, i + 1).drop_last() =~= lv.subrange(0, i as int));
        assert(lv.subrange(0, i + 1).last() == lv[i as int]);
        if !starts_with(&cs, &directive) {
            let n = line.unicode_len();
            let end = if n <= width {
                n
            } else {
                width
            };
            let mut cut = String::from_str(line.substring_char(0, end));
            cut.append("\n");
            let ghost before = r@;
            assert(line@.subrange(0, end as int) == take_chars(lv[i as int], width as nat)) by {
                if n <= width {
                    assert(line@.subrange(0, end as int) =~= line@);
                }
            }
            r.push(cut);
            assert(r@.map_values(|l: String| l@) =~= before.map_values(|l: String| l@).push(
                take_chars(lv[i as int], width as nat) + "\n"@,
            ));
        }
        i = i + 1;
    }
    assert(lv.subrange(0, lines.len() as int) =~= lv);
    r
}

} // verus!
