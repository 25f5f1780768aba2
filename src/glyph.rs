//! Glyphs: the `@organization/project` names of tracked projects.
use crate::errors::GlyphError;
use crate::text::{chars_of, is_white, trim, trim_end, trim_seq, trim_start};
use vstd::prelude::*;
use vstd::string::*;

verus! {

/// What a glyph stands for: its organization tag and its project id.
pub struct GlyphModel {
    pub tag: Seq<char>,
    pub id: Seq<char>,
}

/// The name of a tracked project, written `@tag/id`.
#[derive(Debug)]
pub struct Glyph {
    pub tag: String,
    pub id: String,
}

impl View for Glyph {
    type V = GlyphModel;

    open spec fn view(&self) -> GlyphModel {
        GlyphModel { tag: self.tag@, id: self.id@ }
    }
}

/// No character of `s` is a `/`.
pub open spec fn no_slash(s: Seq<char>) -> bool {
    forall|i: int| 0 <= i < s.len() ==> s[i] != '/'
}

/// The canonical text of a glyph: `@tag/id`.
pub open spec fn glyph_text(g: GlyphModel) -> Seq<char> {
    seq!['@'] + g.tag + seq!['/'] + g.id
}

/// Both parts are non-empty and hold no separator.
pub open spec fn glyph_wf(g: GlyphModel) -> bool {
    g.tag.len() > 0 && g.id.len() > 0 && no_slash(g.tag) && no_slash(g.id)
}

/// The text, once trimmed, is the canonical text of the well-formed glyph `g`.
pub open spec fn parses_to(s: Seq<char>, g: GlyphModel) -> bool {
    glyph_wf(g) && trim_seq(s) == glyph_text(g)
}

/// How many times `c` occurs in `s`.
pub open spec fn count_char(s: Seq<char>, c: char) -> nat
    decreases s.len(),
{
    if s.len() == 0 {
        0
    } else {
        count_char(s.drop_last(), c) + if s.last() == c {
            1nat
        } else {
            0nat
        }
    }
}

proof fn lemma_glyph_text_shape(g: GlyphModel)
    requires
        glyph_wf(g),
    ensures
        glyph_text(g).len() == g.tag.len() as int + g.id.len() + 2,
        glyph_text(g)[0] == '@',
        glyph_text(g)[g.tag.len() as int + 1] == '/',
        forall|i: int|
            0 <= i < glyph_text(g).len() && i != g.tag.len() as int + 1 ==> #[trigger] glyph_text(g)[i]
                != '/',
        glyph_text(g).subrange(1, g.tag.len() as int + 1) == g.tag,
        glyph_text(g).subrange(g.tag.len() as int + 2, glyph_text(g).len() as int) == g.id,
{
    let t = glyph_text(g);
    assert forall|i: int| 0 <= i < t.len() && i != g.tag.len() as int + 1 implies #[trigger] t[i] != '/' by {
        if 1 <= i < g.tag.len() as int + 1 {
            assert(t[i] == g.tag[i - 1]);
        } else if i > g.tag.len() as int + 1 {
            assert(t[i] == g.id[i - g.tag.len() - 2]);
        }
    }
    assert(t.subrange(1, g.tag.len() as int + 1) =~= g.tag);
    assert(t.subrange(g.tag.len() as int + 2, t.len() as int) =~= g.id);
}

proof fn lemma_count_concat(a: Seq<char>, b: Seq<char>, c: char)
    ensures
        count_char(a + b, c) == count_char(a, c) + count_char(b, c),
    decreases b.len(),
{
    if b.len() == 0 {
        assert(a + b =~= a);
    } else {
        assert((a + b).drop_last() =~= a + b.drop_last());
        lemma_count_concat(a, b.drop_last(), c);
    }
}

proof fn lemma_count_none(s: Seq<char>)
    requires
        no_slash(s),
    ensures
        count_char(s, '/') == 0,
    decreases s.len(),
{
    if s.len() > 0 {
        lemma_count_none(s.drop_last());
    }
}

/// The text of a well-formed glyph holds exactly one `/`.
pub proof fn lemma_glyph_text_one_slash(g: GlyphModel)
    requires
        glyph_wf(g),
    ensures
        count_char(glyph_text(g), '/') == 1,
{
    lemma_count_none(g.tag);
    lemma_count_none(g.id);
    lemma_count_concat(seq!['@'], g.tag, '/');
    lemma_count_concat(seq!['@'] + g.tag, seq!['/'], '/');
    lemma_count_concat(seq!['@'] + g.tag + seq!['/'], g.id, '/');
    assert(count_char(seq!['@'], '/') == 0) by {
        assert(seq!['@'].drop_last() =~= Seq::<char>::empty());
        assert(count_char(Seq::<char>::empty(), '/') == 0);
        assert(seq!['@'].last() == '@');
    }
    assert(count_char(seq!['/'], '/') == 1) by {
        assert(seq!['/'].drop_last() =~= Seq::<char>::empty());
        assert(count_char(Seq::<char>::empty(), '/') == 0);
        assert(seq!['/'].last() == '/');
    }
}

/// A text names at most one glyph.
pub proof fn lemma_parse_unique(s: Seq<char>, g1: GlyphModel, g2: GlyphModel)
    requires
        parses_to(s, g1),
        parses_to(s, g2),
    ensures
        g1 == g2,
{
    lemma_glyph_text_shape(g1);
    lemma_glyph_text_shape(g2);
    let t = trim_seq(s);
    if g1.tag.len() < g2.tag.len() {
        assert(t[g1.tag.len() as int + 1] == '/');
    } else if g2.tag.len() < g1.tag.len() {
        assert(t[g2.tag.len() as int + 1] == '/');
    }
    assert(g1.tag =~= g2.tag);
    assert(g1.id =~= g2.id);
}

/// Formatting what was parsed gives back the text, for a text with no
/// surrounding whitespace.
pub proof fn lemma_format_parse_round_trip(s: Seq<char>, g: GlyphModel)
    requires
        parses_to(s, g),
        s.len() > 0,
        !is_white(s[0]),
        !is_white(s.last()),
    ensures
        glyph_text(g) == s,
{
    assert(trim_start(s) == s);
    assert(trim_end(s) == s);
}

/// Parsing the text of a well-formed glyph whose id does not end in
/// whitespace gives back that glyph.
pub proof fn lemma_parse_format_round_trip(g: GlyphModel)
    requires
        glyph_wf(g),
        !is_white(g.id.last()),
    ensures
        parses_to(glyph_text(g), g),
{
    let t = glyph_text(g);
    lemma_glyph_text_shape(g);
    assert(t.last() == g.id.last());
    assert(!is_white('@')) by {
        assert(('@' as u32) == 0x40);
    }
    assert(trim_start(t) == t);
    assert(trim_end(t) == t);
}

/// A text is rejected when, once trimmed, it does not hold exactly one `/`
/// or does not begin with `@`.
pub proof fn lemma_parse_rejects(s: Seq<char>)
    requires
        count_char(trim_seq(s), '/') != 1 || trim_seq(s).len() == 0 || trim_seq(s)[0] != '@',
    ensures
        forall|g: GlyphModel| !parses_to(s, g),
{
    assert forall|g: GlyphModel| !parses_to(s, g) by {
        if parses_to(s, g) {
            lemma_glyph_text_one_slash(g);
            lemma_glyph_text_shape(g);
        }
    }
}

impl Glyph {
    /// A glyph from its two parts, as given.
    pub fn new(tag: &str, id: &str) -> (r: Glyph)
        ensures
            r@ == (GlyphModel { tag: tag@, id: id@ }),
    {
        Glyph { tag: String::from_str(tag), id: String::from_str(id) }
    }

    /// Reads `@tag/id`, ignoring surrounding whitespace.
    pub fn parse(text: &str) -> (r: Result<Glyph, GlyphError>)
        ensures
            match r {
                Ok(g) => parses_to(text@, g@),
                Err(GlyphError::InvalidGlyph { glyph }) => glyph@ == text@ && forall|g: GlyphModel|
                    !parses_to(text@, g),
            },
    {
        let t = trim(text);
        let cs = chars_of(t.as_str());
        let n = cs.len();
        let mut k: usize = 0;
        while k < n && cs[k] != '/'
            invariant
                n == cs@.len(),
                k <= n,
                forall|i: int| 0 <= i < k ==> cs@[i] != '/',
            decreases n - k,
        {
            k = k + 1;
        }
        let mut j: usize = if k < n {
            k + 1
        } else {
            n
        };
        while j < n && cs[j] != '/'
            invariant
                n == cs@.len(),
                k < n ==> k < j <= n,
                k == n ==> j == n,
                forall|i: int| k < i < j ==> cs@[i] != '/',
            decreases n - j,
        {
            j = j + 1;
        }
        if k == n || j < n || k < 2 || cs[0] != '@' || k + 1 >= n {
            proof {
                assert forall|g: GlyphModel| !parses_to(text@, g) by {
                    if parses_to(text@, g) {
                        lemma_glyph_text_shape(g);
                        assert(cs@ == glyph_text(g));
                        assert(cs@[g.tag.len() as int + 1] == '/');
                        if k < n {
                            assert(k == g.tag.len() as int + 1);
                            if j < n {
                                assert(cs@[j as int] == '/');
                            }
                        }
                    }
                }
            }
            return Err(GlyphError::InvalidGlyph { glyph: String::from_str(text) });
        }
        let tag = String::from_str(t.as_str().substring_char(1, k));
        let id = String::from_str(t.as_str().substring_char(k + 1, n));
        let g = Glyph { tag, id };
        proof {
            assert(glyph_text(g@) =~= cs@);
        }
        Ok(g)
    }

    /// The canonical text `@tag/id`.
    pub fn to_string(&self) -> (r: String)
        ensures
            r@ == glyph_text(self@),
    {
        let mut r = String::from_str("@");
        r.append(self.tag.as_str());
        r.append("/");
        r.append(self.id.as_str());
        proof {
            reveal_strlit("@");
            reveal_strlit("/");
            assert(r@ =~= glyph_text(self@));
        }
        r
    }
}

impl Clone for Glyph {
    fn clone(&self) -> (r: Self)
        ensures
            r == *self,
    {
        Glyph { tag: self.tag.clone(), id: self.id.clone() }
    }
}

impl PartialEq for Glyph {
    fn eq(&self, other: &Glyph) -> (r: bool) {
        self.tag == other.tag && self.id == other.id
    }
}

impl vstd::std_specs::cmp::PartialEqSpecImpl for Glyph {
    open spec fn obeys_eq_spec() -> bool {
        true
    }

    open spec fn eq_spec(&self, other: &Glyph) -> bool {
        self@ == other@
    }
}

impl Default for Glyph {
    fn default() -> (r: Glyph)
        ensures
            r@ == (GlyphModel { tag: Seq::empty(), id: Seq::empty() }),
    {
        Glyph { tag: String::new(), id: String::new() }
    }
}

impl std::str::FromStr for Glyph {
    type Err = GlyphError;

    fn from_str(text: &str) -> (r: Result<Glyph, GlyphError>)
        ensures
            match r {
                Ok(g) => parses_to(text@, g@),
                Err(GlyphError::InvalidGlyph { glyph }) => glyph@ == text@ && forall|g: GlyphModel|
                    !parses_to(text@, g),
            },
    {
        Glyph::parse(text)
    }
}

} // verus!
