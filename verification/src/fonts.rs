//! The fonts that stand in for fonts that cannot be shipped.

use crate::text;
use vstd::prelude::*;

verus! {

/// The font that stands in for the one with the normalised name `family`.
pub open spec fn stand_in(family: Seq<char>) -> Option<Seq<char>> {
    if family == "arial"@ {
        Some("Liberation Sans"@)
    } else if family == "arial black"@ {
        Some("Archivo Black"@)
    } else if family == "comic sans ms"@ {
        Some("Comic Neue"@)
    } else if family == "courier"@ || family == "Courier New"@ {
        Some("Courier Prime"@)
    } else if family == "georgia"@ {
        Some("Tinos"@)
    } else if family == "impact"@ {
        Some("Anton"@)
    } else if family == "microsoft sans serif"@ || family == "Times New Roman"@ {
        Some("Liberation Serif"@)
    } else if family == "tahoma"@ || family == "Verdana"@ {
        Some("Open Sans"@)
    } else if family == "trebuchet ms"@ {
        Some("Fira Sans"@)
    } else {
        None
    }
}

/// Looks up the font that stands in for the one with the normalised name
/// `family`.
pub fn find_stand_in(family: &str) -> (result: Option<String>)
    ensures
        match result {
            Some(font) => stand_in(family@) == Some(font@),
            None => stand_in(family@) is None,
        },
{
    let font = if text::same_text(family, "arial") {
        "Liberation Sans"
    } else if text::same_text(family, "arial black") {
        "Archivo Black"
    } else if text::same_text(family, "comic sans ms") {
        "Comic Neue"
    } else if text::same_text(family, "courier") || text::same_text(family, "Courier New") {
        "Courier Prime"
    } else if text::same_text(family, "georgia") {
        "Tinos"
    } else if text::same_text(family, "impact") {
        "Anton"
    } else if text::same_text(family, "microsoft sans serif") || text::same_text(family, "Times New Roman") {
        "Liberation Serif"
    } else if text::same_text(family, "tahoma") || text::same_text(family, "Verdana") {
        "Open Sans"
    } else if text::same_text(family, "trebuchet ms") {
        "Fira Sans"
    } else {
        return None;
    };
    Some(font.to_owned())
}

/// `family` unless a font stands in for the one with the normalised name
/// `normalised`.
pub open spec fn family_or_stand_in(family: Seq<char>, normalised: Seq<char>) -> Seq<char> {
    match stand_in(normalised) {
        Some(font) => font,
        None => family,
    }
}

/// The font to show for `family`. Names are normalised by lowercasing them and
/// then trimming white space.
pub open spec fn shown_family(family: Seq<char>) -> Seq<char> {
    family_or_stand_in(family, text::trimmed(text::lowercase(family)))
}

/// The normalised name of a family whose name is ASCII.
pub open spec fn ascii_normalised(family: Seq<char>) -> Seq<char> {
    text::trimmed(family.map_values(|c: char| text::ascii_lower(c)))
}

/// The font to show for a family whose name is ASCII.
pub open spec fn ascii_shown_family(family: Seq<char>) -> Seq<char> {
    family_or_stand_in(family, ascii_normalised(family))
}

/// Finds the font to show for `family`.
pub fn show_family(family: String) -> (result: String)
    ensures
        result@ == shown_family(family@),
        vstd::utf8::is_ascii_chars(family@) ==> result@ == ascii_shown_family(family@),
{
    let lower = family.as_str().to_lowercase();
    match find_stand_in(text::trim(lower.as_str())) {
        Some(font) => font,
        None => family,
    }
}

/// A font that stands in for another is shown as it is: nothing stands in for
/// it in turn.
pub proof fn law_stand_ins_are_shown(family: Seq<char>)
    requires
        stand_in(family) is Some,
    ensures
        ascii_shown_family(stand_in(family)->0) == stand_in(family)->0,
{
    reveal_strlit("arial");
    reveal_strlit("arial black");
    reveal_strlit("comic sans ms");
    reveal_strlit("courier");
    reveal_strlit("Courier New");
    reveal_strlit("georgia");
    reveal_strlit("impact");
    reveal_strlit("microsoft sans serif");
    reveal_strlit("Times New Roman");
    reveal_strlit("tahoma");
    reveal_strlit("Verdana");
    reveal_strlit("trebuchet ms");
    reveal_strlit("Liberation Sans");
    reveal_strlit("Archivo Black");
    reveal_strlit("Comic Neue");
    reveal_strlit("Courier Prime");
    reveal_strlit("Tinos");
    reveal_strlit("Anton");
    reveal_strlit("Liberation Serif");
    reveal_strlit("Open Sans");
    reveal_strlit("Fira Sans");
    let font = stand_in(family)->0;
    let lower = font.map_values(|c: char| text::ascii_lower(c));
    assert(lower.len() == font.len());
    assert(lower[0] == text::ascii_lower(font[0]));
    assert(lower[1] == text::ascii_lower(font[1]));
    assert(lower[2] == text::ascii_lower(font[2]));
    assert(lower.last() == text::ascii_lower(font.last()));
    assert(text::trimmed(lower) == lower);
}

/// Which fonts have stand-ins, and which ones. No other font has one.
pub proof fn law_stand_ins(family: Seq<char>)
    ensures
        family == "arial"@ ==> stand_in(family) == Some("Liberation Sans"@),
        family == "arial black"@ ==> stand_in(family) == Some("Archivo Black"@),
        family == "comic sans ms"@ ==> stand_in(family) == Some("Comic Neue"@),
        family == "courier"@ || family == "Courier New"@ ==> stand_in(family) == Some(
            "Courier Prime"@,
        ),
        family == "georgia"@ ==> stand_in(family) == Some("Tinos"@),
        family == "impact"@ ==> stand_in(family) == Some("Anton"@),
        family == "microsoft sans serif"@ || family == "Times New Roman"@ ==> stand_in(family)
            == Some("Liberation Serif"@),
        family == "tahoma"@ || family == "Verdana"@ ==> stand_in(family) == Some("Open Sans"@),
        family == "trebuchet ms"@ ==> stand_in(family) == Some("Fira Sans"@),
        stand_in(family) is Some ==> {
            ||| family == "arial"@
            ||| family == "arial black"@
            ||| family == "comic sans ms"@
            ||| family == "courier"@
            ||| family == "Courier New"@
            ||| family == "georgia"@
            ||| family == "impact"@
            ||| family == "microsoft sans serif"@
            ||| family == "Times New Roman"@
            ||| family == "tahoma"@
            ||| family == "Verdana"@
            ||| family == "trebuchet ms"@
        },
{
    reveal_strlit("arial");
    reveal_strlit("arial black");
    reveal_strlit("comic sans ms");
    reveal_strlit("courier");
    reveal_strlit("Courier New");
    reveal_strlit("georgia");
    reveal_strlit("impact");
    reveal_strlit("microsoft sans serif");
    reveal_strlit("Times New Roman");
    reveal_strlit("tahoma");
    reveal_strlit("Verdana");
    reveal_strlit("trebuchet ms");
    assert("arial"@.len() == 5 && "arial"@[0] == 'a');
    assert("arial black"@.len() == 11 && "arial black"@[0] == 'a');
    assert("comic sans ms"@.len() == 13 && "comic sans ms"@[0] == 'c');
    assert("courier"@.len() == 7 && "courier"@[0] == 'c');
    assert("Courier New"@.len() == 11 && "Courier New"@[0] == 'C');
    assert("georgia"@.len() == 7 && "georgia"@[0] == 'g');
    assert("impact"@.len() == 6 && "impact"@[0] == 'i');
    assert("microsoft sans serif"@.len() == 20 && "microsoft sans serif"@[0] == 'm');
    assert("Times New Roman"@.len() == 15 && "Times New Roman"@[0] == 'T');
    assert("tahoma"@.len() == 6 && "tahoma"@[0] == 't');
    assert("Verdana"@.len() == 7 && "Verdana"@[0] == 'V');
    assert("trebuchet ms"@.len() == 12 && "trebuchet ms"@[0] == 't');
}

/// The font to show is found by the lowercase name without the white space around
/// it: the stand-in for that name, or the family itself where there is none.
pub proof fn law_families_are_found_by_lowercase_name(
    family: Seq<char>,
    lead: Seq<char>,
    name: Seq<char>,
    trail: Seq<char>,
)
    requires
        text::is_blank(lead),
        text::is_blank(trail),
        name.len() > 0 ==> !text::white_space(name.first()) && !text::white_space(name.last()),
    ensures
        text::lowercase(family) == lead + name + trail ==> {
            &&& stand_in(name) is Some ==> shown_family(family) == stand_in(name)->0
            &&& stand_in(name) is None ==> shown_family(family) == family
        },
{
    text::law_trimming_keeps_what_is_between_blanks(lead, name, trail);
}

/// White space around a family, and the case of its ASCII letters, do not matter
/// to which font is shown.
pub proof fn law_case_and_white_space_do_not_matter(
    lead: Seq<char>,
    name: Seq<char>,
    trail: Seq<char>,
    lower: Seq<char>,
)
    requires
        text::is_blank(lead),
        text::is_blank(trail),
        name.len() > 0 ==> !text::white_space(name.first()) && !text::white_space(name.last()),
        lower.len() == name.len(),
        forall|i: int|
            0 <= i < name.len() ==> #[trigger] lower[i] == if 'A' <= name[i] <= 'Z' {
                (name[i] as u32 + 32) as char
            } else {
                name[i]
            },
    ensures
        stand_in(lower) is Some ==> ascii_shown_family(lead + name + trail) == stand_in(lower)->0,
        stand_in(lower) is None ==> ascii_shown_family(lead + name + trail) == lead + name + trail,
{
    let family = lead + name + trail;
    let lower_lead = lead.map_values(|c: char| text::ascii_lower(c));
    let lower_trail = trail.map_values(|c: char| text::ascii_lower(c));
    assert(family.map_values(|c: char| text::ascii_lower(c)) =~= lower_lead + lower + lower_trail);
    assert forall|i: int| 0 <= i < lower_lead.len() implies text::white_space(
        #[trigger] lower_lead[i],
    ) by {
        assert(text::white_space(lead[i]));
    }
    assert forall|i: int| 0 <= i < lower_trail.len() implies text::white_space(
        #[trigger] lower_trail[i],
    ) by {
        assert(text::white_space(trail[i]));
    }
    if name.len() > 0 {
        assert(lower[0] == text::ascii_lower(name[0]));
        assert(lower[lower.len() - 1] == text::ascii_lower(name[name.len() - 1]));
    }
    text::law_trimming_keeps_what_is_between_blanks(lower_lead, lower, lower_trail);
}

} // verus!
