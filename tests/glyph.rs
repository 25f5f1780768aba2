use godwit::errors::GlyphError;
use godwit::glyph::Glyph;
use godwit::text::{char_is_white, join_path, trim};

#[test]
fn parse_reads_tag_and_id() {
    let g = Glyph::parse("@acme/api").unwrap();
    assert_eq!(g.tag, "acme");
    assert_eq!(g.id, "api");
}

#[test]
fn parse_ignores_surrounding_whitespace() {
    let g = Glyph::parse("  @acme/api \n").unwrap();
    assert_eq!(g, Glyph::new("acme", "api"));
}

#[test]
fn format_of_parse_gives_back_the_text() {
    for s in ["@acme/api", "@a/b", "@Org-1/Project_X", "@ünï/cödé", "@a b/c d"] {
        assert_eq!(Glyph::parse(s).unwrap().to_string(), s);
    }
}

#[test]
fn parse_rejects_text_without_one_slash() {
    for s in ["@acmeapi", "@a/b/c", "", "   ", "@a//b"] {
        assert_eq!(
            Glyph::parse(s),
            Err(GlyphError::InvalidGlyph { glyph: s.to_string() })
        );
    }
}

#[test]
fn parse_rejects_text_without_leading_at() {
    for s in ["acme/api", "a@/b", " x@acme/api"] {
        assert_eq!(
            Glyph::parse(s),
            Err(GlyphError::InvalidGlyph { glyph: s.to_string() })
        );
    }
}

#[test]
fn parse_rejects_empty_parts() {
    for s in ["@/api", "@acme/", "@/"] {
        assert!(Glyph::parse(s).is_err());
    }
}

#[test]
fn from_str_parses() {
    let g: Glyph = "@acme/web".parse().unwrap();
    assert_eq!(g.to_string(), "@acme/web");
}

#[test]
fn default_glyph_is_empty() {
    let g = Glyph::default();
    assert_eq!(g.tag, "");
    assert_eq!(g.id, "");
}

#[test]
fn whitespace_agrees_with_std() {
    for u in 0u32..0x3100 {
        if let Some(c) = char::from_u32(u) {
            assert_eq!(char_is_white(c), c.is_whitespace(), "{:x}", u);
        }
    }
    for c in ['\u{feff}', '\u{200b}', 'a', '\u{10ffff}'] {
        assert_eq!(char_is_white(c), c.is_whitespace());
    }
}

#[test]
fn trim_agrees_with_std() {
    for s in ["", "   ", " a ", "\t\u{3000}x y\u{a0}\n", "abc", "\u{2028}"] {
        assert_eq!(trim(s), s.trim());
    }
}

#[test]
fn join_path_puts_one_separator() {
    assert_eq!(join_path("/home/u", ".godwit"), "/home/u/.godwit");
    assert_eq!(join_path("/home/u/", ".godwit"), "/home/u/.godwit");
    assert_eq!(join_path("", "active.gwsg"), "active.gwsg");
}

#[test]
fn from_str_rejects_like_parse() {
    for s in ["acme/api", "@acme", "@acme/api/x", "@acme/", "@/api"] {
        let r: Result<Glyph, GlyphError> = s.parse();
        assert_eq!(r, Err(GlyphError::InvalidGlyph { glyph: s.to_string() }));
    }
    let g: Glyph = " @acme/web ".parse().unwrap();
    assert_eq!(g, Glyph::new("acme", "web"));
}
