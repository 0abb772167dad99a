//! The names of capture files: the base name that the template of the
//! configuration gives, the paths tried for it, and the name that a capture is
//! given by hand.

use vstd::prelude::*;
use vstd::string::*;
use crate::grammar::{lemma_trim_bounds, trim};
use crate::settings::{FilenameBlock, FilenameBlockView, FilenameTemplate, FilenameTemplateView};
use crate::text::{
    ends_with, fold, folded_chars, is_blank, is_blank_exec, str_eq, word_ends_with, word_is,
};

verus! {

/// The ten decimal digits.
pub open spec fn decimal_alphabet() -> Seq<char> {
    "0123456789"@
}

/// A number in decimal, without leading zeros.
pub open spec fn decimal(n: nat) -> Seq<char>
    decreases n,
{
    if n < 10 {
        seq![decimal_alphabet()[n as int]]
    } else {
        decimal(n / 10).push(decimal_alphabet()[(n % 10) as int])
    }
}

/// Writes a number in decimal.
pub fn decimal_string(n: u64) -> (r: String)
    ensures
        r@ == decimal(n as nat),
{
    let alphabet = "0123456789";
    proof {
        reveal_strlit("0123456789");
    }
    let d: usize = (n % 10) as usize;
    let mut out = String::from_str(alphabet.substring_char(d, d + 1));
    let mut rest: u64 = n / 10;
    proof {
        assert(out@ =~= seq![decimal_alphabet()[d as int]]);
        if rest > 0 {
            assert(decimal(rest as nat).push(decimal_alphabet()[d as int]) =~= decimal(rest as nat)
                + out@);
        }
    }
    while rest > 0
        invariant
            alphabet@ == decimal_alphabet(),
            alphabet@.len() == 10,
            decimal(n as nat) == if rest == 0 {
                out@
            } else {
                decimal(rest as nat) + out@
            },
        decreases rest,
    {
        let d: usize = (rest % 10) as usize;
        let digit = alphabet.substring_char(d, d + 1);
        proof {
            assert(digit@ =~= seq![decimal_alphabet()[d as int]]);
            if rest >= 10 {
                assert(decimal((rest / 10) as nat).push(decimal_alphabet()[d as int]) + out@
                    =~= decimal((rest / 10) as nat) + (digit@ + out@));
            } else {
                assert(seq![decimal_alphabet()[d as int]] + out@ =~= digit@ + out@);
            }
        }
        out = String::from_str(digit).concat(out.as_str());
        rest = rest / 10;
    }
    out
}

/// What a file name is built from besides the template.
pub struct NameParts {
    pub date: Seq<char>,
    pub time: Seq<char>,
    pub quality: u32,
    pub width: u32,
    pub height: u32,
}

/// What a block of the template adds to the name, before empty parts are
/// dropped: the prefix its value, or `llm-scr` where it has none; the date and
/// the time as they are given; the quality as a percentage; the dimensions as
/// width `x` height. A block that is switched off, the counter and any other
/// block add nothing.
pub open spec fn block_text(block: FilenameBlockView, parts: NameParts) -> Seq<char> {
    if !block.enabled {
        Seq::<char>::empty()
    } else if block.id == "prefix"@ {
        match block.value {
            Some(v) => v,
            None => "llm-scr"@,
        }
    } else if block.id == "date"@ {
        parts.date
    } else if block.id == "time"@ {
        parts.time
    } else if block.id == "quality"@ {
        decimal(parts.quality as nat) + "%"@
    } else if block.id == "dimensions"@ {
        decimal(parts.width as nat) + "x"@ + decimal(parts.height as nat)
    } else {
        Seq::<char>::empty()
    }
}

/// The parts of the blocks that are not empty, in order, joined by `_`.
pub open spec fn joined_parts(blocks: Seq<FilenameBlockView>, parts: NameParts) -> Seq<char>
    decreases blocks.len(),
{
    if blocks.len() == 0 {
        Seq::<char>::empty()
    } else {
        let before = joined_parts(blocks.drop_last(), parts);
        let text = block_text(blocks.last(), parts);
        if text.len() == 0 {
            before
        } else if before.len() == 0 {
            text
        } else {
            before + "_"@ + text
        }
    }
}

/// The base name of a capture file: the joined parts, or `screenshot` where
/// there are none.
pub open spec fn base_name(template: FilenameTemplateView, parts: NameParts) -> Seq<char> {
    let joined = joined_parts(template.blocks, parts);
    if joined.len() == 0 {
        "screenshot"@
    } else {
        joined
    }
}

/// Whether names are made unique by a counter: the template says so, or
/// its counter block is switched on.
pub open spec fn counts(template: FilenameTemplateView) -> bool {
    template.use_counter || exists|i: int|
        0 <= i < template.blocks.len() && #[trigger] template.blocks[i].id == "counter"@
            && template.blocks[i].enabled
}

/// The path tried for a capture at a count: on the desktop, the base name
/// and the extension, with the count between them from the second on.
pub open spec fn numbered_path(home: Seq<char>, base: Seq<char>, counter: u32, extension: Seq<char>)
    -> Seq<char> {
    if counter == 1 {
        home + "/Desktop/"@ + base + "."@ + extension
    } else {
        home + "/Desktop/"@ + base + "_"@ + decimal(counter as nat) + "."@ + extension
    }
}

/// The path of a capture before it has its name.
pub open spec fn temp_path(home: Seq<char>, timestamp: u64, extension: Seq<char>) -> Seq<char> {
    home + "/Desktop/llm-scr_tmp_"@ + decimal(timestamp as nat) + "."@ + extension
}

fn block_part(block: &FilenameBlock, date: &str, time: &str, quality: u32, width: u32, height: u32)
    -> (r: String)
    ensures
        r@ == block_text(
            block@,
            NameParts { date: date@, time: time@, quality, width, height },
        ),
{
    if !block.enabled {
        return String::new();
    }
    let id = block.id.as_str();
    if str_eq(id, "prefix") {
        match &block.value {
            Some(v) => v.clone(),
            None => String::from_str("llm-scr"),
        }
    } else if str_eq(id, "date") {
        String::from_str(date)
    } else if str_eq(id, "time") {
        String::from_str(time)
    } else if str_eq(id, "quality") {
        decimal_string(quality as u64).concat("%")
    } else if str_eq(id, "dimensions") {
        let mut out = decimal_string(width as u64);
        out.append("x");
        let h = decimal_string(height as u64);
        out.append(h.as_str());
        out
    } else {
        String::new()
    }
}

/// Builds the base name of a capture file from the template.
pub fn screenshot_base_name(
    template: &FilenameTemplate,
    date: &str,
    time: &str,
    quality: u32,
    width: u32,
    height: u32,
) -> (r: String)
    ensures
        r@ == base_name(template@, NameParts { date: date@, time: time@, quality, width, height }),
{
    let ghost parts = NameParts { date: date@, time: time@, quality, width, height };
    let n: usize = template.blocks.len();
    let mut out = String::new();
    let mut i: usize = 0;
    proof {
        assert(template@.blocks.subrange(0, 0) =~= Seq::<FilenameBlockView>::empty());
    }
    while i < n
        invariant
            n == template.blocks@.len(),
            n == template@.blocks.len(),
            i <= n,
            parts == (NameParts { date: date@, time: time@, quality, width, height }),
            out@ == joined_parts(template@.blocks.subrange(0, i as int), parts),
        decreases n - i,
    {
        let text = block_part(&template.blocks[i], date, time, quality, width, height);
        proof {
            let upto = template@.blocks.subrange(0, i + 1);
            assert(upto.drop_last() =~= template@.blocks.subrange(0, i as int));
            assert(upto.last() == template.blocks@[i as int]@);
        }
        if text.as_str().unicode_len() > 0 {
            if out.as_str().unicode_len() > 0 {
                out.append("_");
            }
            out.append(text.as_str());
        }
        i = i + 1;
    }
    proof {
        assert(template@.blocks.subrange(0, n as int) =~= template@.blocks);
    }
    if out.as_str().unicode_len() == 0 {
        String::from_str("screenshot")
    } else {
        out
    }
}

/// Whether names are made unique by a counter.
pub fn uses_counter(template: &FilenameTemplate) -> (r: bool)
    ensures
        r == counts(template@),
{
    if template.use_counter {
        return true;
    }
    let n: usize = template.blocks.len();
    let mut i: usize = 0;
    while i < n
        invariant
            n == template.blocks@.len(),
            n == template@.blocks.len(),
            i <= n,
            !template.use_counter,
            forall|j: int|
                0 <= j < i ==> !(#[trigger] template@.blocks[j].id == "counter"@
                    && template@.blocks[j].enabled),
        decreases n - i,
    {
        if template.blocks[i].enabled && str_eq(template.blocks[i].id.as_str(), "counter") {
            assert(template@.blocks[i as int].id == "counter"@ && template@.blocks[i as int].enabled);
            return true;
        }
        i = i + 1;
    }
    false
}

/// The path tried for a capture at a count.
pub fn screenshot_path(home: &str, base: &str, counter: u32, extension: &str) -> (r: String)
    ensures
        r@ == numbered_path(home@, base@, counter, extension@),
{
    let mut out = String::from_str(home);
    out.append("/Desktop/");
    out.append(base);
    if counter != 1 {
        out.append("_");
        let count = decimal_string(counter as u64);
        out.append(count.as_str());
    }
    out.append(".");
    out.append(extension);
    out
}

/// The path of a capture before it has its name.
pub fn temp_screenshot_path(home: &str, timestamp: u64, extension: &str) -> (r: String)
    ensures
        r@ == temp_path(home@, timestamp, extension@),
{
    let mut out = String::from_str(home);
    out.append("/Desktop/llm-scr_tmp_");
    let stamp = decimal_string(timestamp);
    out.append(stamp.as_str());
    out.append(".");
    out.append(extension);
    out
}

/// `s` without the characters that a file name cannot hold: `/` and `:`.
pub open spec fn without_separators(s: Seq<char>) -> Seq<char>
    decreases s.len(),
{
    if s.len() == 0 {
        s
    } else if s.last() == '/' || s.last() == ':' {
        without_separators(s.drop_last())
    } else {
        without_separators(s.drop_last()).push(s.last())
    }
}

/// The file name that a capture gets by hand: the name without `/` and
/// `:`, then without the blanks at its ends, and the extension after a dot.
pub open spec fn renamed(new_name: Seq<char>, extension: Seq<char>) -> Seq<char> {
    trim(without_separators(new_name)) + "."@ + extension
}

/// Builds the file name that a capture gets by hand.
pub fn renamed_file_name(new_name: &str, extension: &str) -> (r: String)
    ensures
        r@ == renamed(new_name@, extension@),
{
    let n: usize = new_name.unicode_len();
    let mut kept = String::new();
    let mut i: usize = 0;
    proof {
        assert(new_name@.subrange(0, 0) =~= Seq::<char>::empty());
    }
    while i < n
        invariant
            n == new_name@.len(),
            i <= n,
            kept@ == without_separators(new_name@.subrange(0, i as int)),
        decreases n - i,
    {
        let c = new_name.get_char(i);
        proof {
            let upto = new_name@.subrange(0, i + 1);
            assert(upto.drop_last() =~= new_name@.subrange(0, i as int));
            assert(upto.last() == c);
        }
        if c != '/' && c != ':' {
            let one = new_name.substring_char(i, i + 1);
            proof {
                assert(kept@ + one@ =~= kept@.push(c));
            }
            kept.append(one);
        }
        i = i + 1;
    }
    proof {
        assert(new_name@.subrange(0, n as int) =~= new_name@);
    }
    let text = kept.as_str();
    let m: usize = text.unicode_len();
    let mut a: usize = 0;
    while a < m && is_blank_exec(text.get_char(a))
        invariant
            m == text@.len(),
            a <= m,
            forall|j: int| 0 <= j < a ==> is_blank(text@[j]),
        decreases m - a,
    {
        a = a + 1;
    }
    let mut b: usize = m;
    while b > a && is_blank_exec(text.get_char(b - 1))
        invariant
            m == text@.len(),
            a <= b <= m,
            forall|j: int| b <= j < m ==> is_blank(text@[j]),
        decreases b,
    {
        b = b - 1;
    }
    proof {
        lemma_trim_bounds(text@, a as int, b as int);
    }
    let mut out = String::from_str(text.substring_char(a, b));
    out.append(".");
    out.append(extension);
    out
}

/// Whether a path names a JPEG file: it ends in `.jpg` or `.jpeg`, in
/// either case.
pub open spec fn is_jpeg_path(path: Seq<char>) -> bool {
    ends_with(fold(path), ".jpg"@) || ends_with(fold(path), ".jpeg"@)
}

/// The media type of an image file, by the ending of its path.
pub open spec fn media_type(path: Seq<char>) -> Seq<char> {
    if is_jpeg_path(path) {
        "image/jpeg"@
    } else {
        "image/png"@
    }
}

/// Whether a path names a JPEG file.
pub fn path_is_jpeg(filepath: &str) -> (r: bool)
    ensures
        r == is_jpeg_path(filepath@),
{
    let w = folded_chars(filepath);
    word_ends_with(&w, ".jpg") || word_ends_with(&w, ".jpeg")
}

/// The media type of an image file.
pub fn mime_type(filepath: &str) -> (r: &'static str)
    ensures
        r@ == media_type(filepath@),
{
    if path_is_jpeg(filepath) {
        "image/jpeg"
    } else {
        "image/png"
    }
}

/// Whether a file with this extension is taken for an image: `png`, `jpg`
/// or `jpeg`, in either case.
pub open spec fn is_image_ending(extension: Seq<char>) -> bool {
    fold(extension) == "png"@ || fold(extension) == "jpg"@ || fold(extension) == "jpeg"@
}

/// Whether a file with this extension is taken for an image.
pub fn is_image_extension(extension: &str) -> (r: bool)
    ensures
        r == is_image_ending(extension@),
{
    let w = folded_chars(extension);
    word_is(&w, "png") || word_is(&w, "jpg") || word_is(&w, "jpeg")
}

} // verus!
