//! Library-wide guarantees, stated and proved over the same spec
//! functions the executable contracts use.

use vstd::prelude::*;

use crate::builder::{builder_bg_code, builder_fg_code, builder_output, ColorBuilder};
use crate::codes::{dec_rep, digit_char, reset_seq, rgb_code_seq};
use crate::hex::{hex_channels, strip_hash, valid_hex};
use crate::resolve::{
    attribute_code, color_code_num, color_code_seq, color_offset, named_code, normalize,
    resolve_color, BaseColor,
};
use crate::style::{attrs_prefix, opt_code, styled_output};
use crate::text::{is_space, lower_char, lower_seq, trim_end, trim_start};

verus! {

/// Whether `needle` occurs in `hay` as a contiguous subsequence.
pub open spec fn contains_seq(hay: Seq<char>, needle: Seq<char>) -> bool {
    exists|i: int|
        0 <= i && i + needle.len() <= hay.len() && #[trigger] hay.subrange(i, i + needle.len())
            == needle
}

/// Whether `hay` ends with `suffix`.
pub open spec fn ends_with(hay: Seq<char>, suffix: Seq<char>) -> bool {
    suffix.len() <= hay.len() && hay.subrange(hay.len() - suffix.len(), hay.len() as int)
        == suffix
}

/// Every colorize output carries the text verbatim, as one contiguous
/// piece, and ends with exactly the reset sequence — whatever the colors
/// and attributes, present, absent or unrecognized.
pub proof fn lemma_output_carries_text(
    text: Seq<char>,
    fg: Option<Seq<char>>,
    bg: Option<Seq<char>>,
    attrs: Seq<Seq<char>>,
)
    ensures
        contains_seq(styled_output(text, fg, bg, attrs), text),
        ends_with(styled_output(text, fg, bg, attrs), reset_seq()),
{
    let out = styled_output(text, fg, bg, attrs);
    let i: int = (attrs_prefix(attrs).len() + opt_code(fg).len() + opt_code(bg).len()) as int;
    assert(out.subrange(i, i + text.len()) =~= text);
    assert(0 <= i && i + text.len() <= out.len());
    assert(contains_seq(out, text));
    assert(out.subrange(out.len() - reset_seq().len(), out.len() as int) =~= reset_seq());
}

/// When a foreground code is present, the output carries it verbatim.
pub proof fn lemma_output_carries_fg_code(
    text: Seq<char>,
    fg_code: Seq<char>,
    bg: Option<Seq<char>>,
    attrs: Seq<Seq<char>>,
)
    ensures
        contains_seq(styled_output(text, Some(fg_code), bg, attrs), fg_code),
{
    let out = styled_output(text, Some(fg_code), bg, attrs);
    let i: int = attrs_prefix(attrs).len() as int;
    assert(out.subrange(i, i + fg_code.len()) =~= fg_code);
    assert(contains_seq(out, fg_code));
}

/// Names that resolve alike colorize alike: the output depends on a
/// foreground name only through its resolution.
pub proof fn lemma_same_resolution_same_output(
    a: Seq<char>,
    b: Seq<char>,
    text: Seq<char>,
    bg: Option<Seq<char>>,
    attrs: Seq<Seq<char>>,
)
    requires
        resolve_color(a) == resolve_color(b),
    ensures
        named_code(a, false) == named_code(b, false),
        named_code(a, true) == named_code(b, true),
        styled_output(text, named_code(a, false), bg, attrs) == styled_output(
            text,
            named_code(b, false),
            bg,
            attrs,
        ),
{
}

/// Attribute codes are emitted in the order given: for two attribute
/// names, the prefix is the first one's code, then the second one's.
pub proof fn lemma_attrs_in_order(a0: Seq<char>, a1: Seq<char>)
    ensures
        attrs_prefix(seq![a0, a1]) == opt_code(attribute_code(a0)) + opt_code(
            attribute_code(a1),
        ),
{
    let pair = seq![a0, a1];
    assert(pair.drop_last() =~= seq![a0]);
    assert(seq![a0].drop_last() =~= Seq::<Seq<char>>::empty());
    assert(attrs_prefix(seq![a0]) == attrs_prefix(Seq::<Seq<char>>::empty()) + opt_code(
        attribute_code(a0),
    ));
    assert(Seq::<char>::empty() + opt_code(attribute_code(a0)) =~= opt_code(attribute_code(a0)));
    assert(attrs_prefix(pair) =~= opt_code(attribute_code(a0)) + opt_code(attribute_code(a1)));
}

/// An explicit RGB foreground takes precedence: when one is set, the
/// built output uses its true-color code, and the named foreground has
/// no effect at all.
pub proof fn lemma_builder_rgb_precedence(b: ColorBuilder, t: (u8, u8, u8))
    requires
        b.fg_rgb == Some(t),
    ensures
        builder_fg_code(b) == Some(rgb_code_seq(false, t.0, t.1, t.2)),
        builder_output(b) == styled_output(
            b.text@,
            Some(rgb_code_seq(false, t.0, t.1, t.2)),
            builder_bg_code(b),
            b.attrs.deep_view(),
        ),
{
}

/// Two builders that agree on everything but the named foreground build
/// the same output once an explicit RGB foreground is set on both.
pub proof fn lemma_builder_named_fg_ignored(b1: ColorBuilder, b2: ColorBuilder)
    requires
        b1.fg_rgb is Some,
        b1.fg_rgb == b2.fg_rgb,
        b1.text@ == b2.text@,
        b1.bg.deep_view() == b2.bg.deep_view(),
        b1.bg_rgb == b2.bg_rgb,
        b1.attrs.deep_view() == b2.attrs.deep_view(),
    ensures
        builder_output(b1) == builder_output(b2),
{
}

/// Lowercase names with no surrounding whitespace normalize to themselves.
proof fn lemma_normalize_plain(s: Seq<char>)
    requires
        s.len() > 0,
        forall|i: int| 0 <= i < s.len() ==> #[trigger] lower_char(s[i]) == s[i],
        !is_space(s[0]),
        !is_space(s[s.len() - 1]),
    ensures
        normalize(s) == s,
{
    assert(lower_seq(s) =~= s);
    assert(trim_start(s) == s);
    assert(trim_end(s) == s);
}

/// Every documented abbreviation resolves exactly as the full color name
/// does, so colorizing with an abbreviation gives the same output as
/// colorizing with the full name.
pub proof fn lemma_abbreviations_resolve()
    ensures
        resolve_color("black"@) == Some((BaseColor::Black, false)),
        resolve_color("b"@) == resolve_color("black"@),
        resolve_color("bk"@) == resolve_color("black"@),
        resolve_color("red"@) == Some((BaseColor::Red, false)),
        resolve_color("r"@) == resolve_color("red"@),
        resolve_color("rd"@) == resolve_color("red"@),
        resolve_color("re"@) == resolve_color("red"@),
        resolve_color("green"@) == Some((BaseColor::Green, false)),
        resolve_color("g"@) == resolve_color("green"@),
        resolve_color("gr"@) == resolve_color("green"@),
        resolve_color("ge"@) == resolve_color("green"@),
        resolve_color("yellow"@) == Some((BaseColor::Yellow, false)),
        resolve_color("y"@) == resolve_color("yellow"@),
        resolve_color("ye"@) == resolve_color("yellow"@),
        resolve_color("yl"@) == resolve_color("yellow"@),
        resolve_color("blue"@) == Some((BaseColor::Blue, false)),
        resolve_color("bl"@) == resolve_color("blue"@),
        resolve_color("magenta"@) == Some((BaseColor::Magenta, false)),
        resolve_color("m"@) == resolve_color("magenta"@),
        resolve_color("mg"@) == resolve_color("magenta"@),
        resolve_color("ma"@) == resolve_color("magenta"@),
        resolve_color("cyan"@) == Some((BaseColor::Cyan, false)),
        resolve_color("c"@) == resolve_color("cyan"@),
        resolve_color("cy"@) == resolve_color("cyan"@),
        resolve_color("cn"@) == resolve_color("cyan"@),
        resolve_color("white"@) == Some((BaseColor::White, false)),
        resolve_color("w"@) == resolve_color("white"@),
        resolve_color("wh"@) == resolve_color("white"@),
        resolve_color("wi"@) == resolve_color("white"@),
        resolve_color("wt"@) == resolve_color("white"@),
{
    reveal_strlit("light");
    reveal_strlit("b");
    reveal_strlit("bk");
    reveal_strlit("black");
    reveal_strlit("r");
    reveal_strlit("rd");
    reveal_strlit("re");
    reveal_strlit("red");
    reveal_strlit("g");
    reveal_strlit("gr");
    reveal_strlit("ge");
    reveal_strlit("green");
    reveal_strlit("y");
    reveal_strlit("ye");
    reveal_strlit("yl");
    reveal_strlit("yellow");
    reveal_strlit("bl");
    reveal_strlit("blue");
    reveal_strlit("m");
    reveal_strlit("mg");
    reveal_strlit("ma");
    reveal_strlit("magenta");
    reveal_strlit("c");
    reveal_strlit("cy");
    reveal_strlit("cn");
    reveal_strlit("cyan");
    reveal_strlit("w");
    reveal_strlit("wh");
    reveal_strlit("wi");
    reveal_strlit("wt");
    reveal_strlit("white");
    lemma_normalize_plain("b"@);
    lemma_normalize_plain("bk"@);
    lemma_normalize_plain("black"@);
    lemma_normalize_plain("r"@);
    lemma_normalize_plain("rd"@);
    lemma_normalize_plain("re"@);
    lemma_normalize_plain("red"@);
    lemma_normalize_plain("g"@);
    lemma_normalize_plain("gr"@);
    lemma_normalize_plain("ge"@);
    lemma_normalize_plain("green"@);
    lemma_normalize_plain("y"@);
    lemma_normalize_plain("ye"@);
    lemma_normalize_plain("yl"@);
    lemma_normalize_plain("yellow"@);
    lemma_normalize_plain("bl"@);
    lemma_normalize_plain("blue"@);
    lemma_normalize_plain("m"@);
    lemma_normalize_plain("mg"@);
    lemma_normalize_plain("ma"@);
    lemma_normalize_plain("magenta"@);
    lemma_normalize_plain("c"@);
    lemma_normalize_plain("cy"@);
    lemma_normalize_plain("cn"@);
    lemma_normalize_plain("cyan"@);
    lemma_normalize_plain("w"@);
    lemma_normalize_plain("wh"@);
    lemma_normalize_plain("wi"@);
    lemma_normalize_plain("wt"@);
    lemma_normalize_plain("white"@);
    assert("black"@.subrange(0, 5) =~= "black"@);
    assert("black"@.subrange(0, 5) != "light"@);
    assert("white"@.subrange(0, 5) =~= "white"@);
    assert("white"@.subrange(0, 5) != "light"@);
    assert("green"@.subrange(0, 5)[0] == 'g');
    assert("green"@.subrange(0, 5) != "light"@);
    assert("yellow"@.subrange(0, 5)[0] == 'y');
    assert("yellow"@.subrange(0, 5) != "light"@);
    assert("magenta"@.subrange(0, 5)[0] == 'm');
    assert("magenta"@.subrange(0, 5) != "light"@);
    assert(resolve_color("black"@) == Some((BaseColor::Black, false)));
    assert(resolve_color("b"@) == Some((BaseColor::Black, false)));
    assert(resolve_color("bk"@) == Some((BaseColor::Black, false)));
    assert(resolve_color("red"@) == Some((BaseColor::Red, false)));
    assert(resolve_color("r"@) == Some((BaseColor::Red, false)));
    assert(resolve_color("rd"@) == Some((BaseColor::Red, false)));
    assert(resolve_color("re"@) == Some((BaseColor::Red, false)));
    assert(resolve_color("green"@) == Some((BaseColor::Green, false)));
    assert(resolve_color("g"@) == Some((BaseColor::Green, false)));
    assert(resolve_color("gr"@) == Some((BaseColor::Green, false)));
    assert(resolve_color("ge"@) == Some((BaseColor::Green, false)));
    assert(resolve_color("yellow"@) == Some((BaseColor::Yellow, false)));
    assert(resolve_color("y"@) == Some((BaseColor::Yellow, false)));
    assert(resolve_color("ye"@) == Some((BaseColor::Yellow, false)));
    assert(resolve_color("yl"@) == Some((BaseColor::Yellow, false)));
    assert(resolve_color("blue"@) == Some((BaseColor::Blue, false)));
    assert(resolve_color("bl"@) == Some((BaseColor::Blue, false)));
    assert(resolve_color("magenta"@) == Some((BaseColor::Magenta, false)));
    assert(resolve_color("m"@) == Some((BaseColor::Magenta, false)));
    assert(resolve_color("mg"@) == Some((BaseColor::Magenta, false)));
    assert(resolve_color("ma"@) == Some((BaseColor::Magenta, false)));
    assert(resolve_color("cyan"@) == Some((BaseColor::Cyan, false)));
    assert(resolve_color("c"@) == Some((BaseColor::Cyan, false)));
    assert(resolve_color("cy"@) == Some((BaseColor::Cyan, false)));
    assert(resolve_color("cn"@) == Some((BaseColor::Cyan, false)));
    assert(resolve_color("white"@) == Some((BaseColor::White, false)));
    assert(resolve_color("w"@) == Some((BaseColor::White, false)));
    assert(resolve_color("wh"@) == Some((BaseColor::White, false)));
    assert(resolve_color("wi"@) == Some((BaseColor::White, false)));
    assert(resolve_color("wt"@) == Some((BaseColor::White, false)));
}

/// The light variant of a palette color never shares an escape code with
/// its base variant.
pub proof fn lemma_light_code_differs(c: BaseColor, background: bool)
    ensures
        color_code_seq(c, true, background) != color_code_seq(c, false, background),
{
    let nl = color_code_num(c, true, background) as nat;
    let nb = color_code_num(c, false, background) as nat;
    assert(0 <= color_offset(c) <= 7);
    assert(10 <= nb < 100 && nb / 10 < 10);
    assert(dec_rep(nb) == dec_rep(nb / 10).push(digit_char((nb % 10) as int)));
    assert(dec_rep(nb / 10) == seq![digit_char((nb / 10) as int)]);
    assert(dec_rep(nb) =~= seq![digit_char((nb / 10) as int), digit_char((nb % 10) as int)]);
    if background {
        assert(nl / 10 == 10);
        assert(dec_rep(nl) == dec_rep(nl / 10).push(digit_char((nl % 10) as int)));
        assert(dec_rep(10nat) == dec_rep(1nat).push(digit_char(0)));
        assert(dec_rep(1nat) == seq![digit_char(1)]);
        assert(color_code_seq(c, true, background).len() != color_code_seq(
            c,
            false,
            background,
        ).len());
    } else {
        assert(10 <= nl < 100 && nl / 10 < 10);
        assert(dec_rep(nl) == dec_rep(nl / 10).push(digit_char((nl % 10) as int)));
        assert(dec_rep(nl / 10) == seq![digit_char((nl / 10) as int)]);
        assert(nl / 10 == 9 && nb / 10 == 3);
        assert(color_code_seq(c, true, background)[2] == '9');
        assert(color_code_seq(c, false, background)[2] == '3');
    }
}

/// For any text, asking for a `red` foreground yields an output that
/// carries the red foreground code, the text itself, and the trailing
/// reset.
pub proof fn lemma_red_output(text: Seq<char>)
    ensures
        named_code("red"@, false) == Some(color_code_seq(BaseColor::Red, false, false)),
        contains_seq(
            styled_output(text, named_code("red"@, false), None, Seq::empty()),
            color_code_seq(BaseColor::Red, false, false),
        ),
        contains_seq(styled_output(text, named_code("red"@, false), None, Seq::empty()), text),
        ends_with(
            styled_output(text, named_code("red"@, false), None, Seq::empty()),
            reset_seq(),
        ),
{
    lemma_abbreviations_resolve();
    lemma_output_carries_fg_code(
        text,
        color_code_seq(BaseColor::Red, false, false),
        None,
        Seq::empty(),
    );
    lemma_output_carries_text(text, named_code("red"@, false), None, Seq::empty());
}

/// The `light` prefix selects the light variant: `lightred` resolves to
/// light red, whose code differs from plain red's.
pub proof fn lemma_light_name_resolves()
    ensures
        resolve_color("lightred"@) == Some((BaseColor::Red, true)),
        named_code("lightred"@, false) is Some,
        named_code("red"@, false) is Some,
        named_code("lightred"@, false) != named_code("red"@, false),
{
    reveal_strlit("lightred");
    reveal_strlit("light");
    reveal_strlit("red");
    lemma_normalize_plain("lightred"@);
    lemma_normalize_plain("red"@);
    lemma_abbreviations_resolve();
    assert("lightred"@.subrange(0, 5) =~= "light"@);
    assert("lightred"@.skip(5) =~= "red"@);
    assert(resolve_color("lightred"@) == Some((BaseColor::Red, true)));
    lemma_light_code_differs(BaseColor::Red, false);
}

/// Hex resolution is a pure function of the input characters: equal
/// inputs have equal validity, equal channels, and equal remainders, so
/// two calls on the same string cannot disagree.
pub proof fn lemma_hex_resolution_repeatable(a: Seq<char>, b: Seq<char>)
    requires
        a == b,
    ensures
        valid_hex(a) == valid_hex(b),
        hex_channels(a) == hex_channels(b),
        strip_hash(a) == strip_hash(b),
{
}

} // verus!
