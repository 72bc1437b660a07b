//! The decisions behind the commands that the window's front end invokes: reading a
//! colour, cleaning pasted links, choosing how to open a file, and checking what a
//! playlist probe printed.
use vstd::prelude::*;
use vstd::string::StringSliceAdditionalSpecFns;
use vstd::utf8::{decode_utf8, is_char_boundary, valid_utf8};
use crate::text::{lemma_trim_idempotent, trim, trim_string};
use crate::updater::ProcessEvent;

verus! {

/// `b` without its leading '#' bytes.
pub open spec fn strip_hashes(b: Seq<u8>) -> Seq<u8>
    decreases b.len(),
{
    if b.len() > 0 && b[0] == 35u8 {
        strip_hashes(b.drop_first())
    } else {
        b
    }
}

/// The value of the hexadecimal digit `c`, in either case.
pub open spec fn hex_value(c: u8) -> Option<u8> {
    if 48 <= c && c <= 57 {
        Some((c - 48) as u8)
    } else if 97 <= c && c <= 102 {
        Some((c - 87) as u8)
    } else if 65 <= c && c <= 70 {
        Some((c - 55) as u8)
    } else {
        None
    }
}

/// The byte that two characters give in base 16, as `u8::from_str_radix` reads them: two
/// hexadecimal digits, or a plus sign and one digit.
pub open spec fn pair_value(hi: u8, lo: u8) -> Option<u8> {
    if hi == 43u8 {
        hex_value(lo)
    } else {
        match (hex_value(hi), hex_value(lo)) {
            (Some(a), Some(b)) => Some((a * 16 + b) as u8),
            _ => None,
        }
    }
}

/// The character that writes the hexadecimal digit `d` (below 16), in upper or lower case.
pub open spec fn digit_byte(d: u8, upper: bool) -> u8 {
    if d < 10 {
        (48 + d) as u8
    } else if upper {
        (65 + (d - 10)) as u8
    } else {
        (97 + (d - 10)) as u8
    }
}

/// Law: every hexadecimal digit, '0' to '9', 'a' to 'f' or 'A' to 'F', is read with its
/// value, whatever its case; any other byte is no digit.
pub proof fn lemma_hex_digits(d: u8, upper: bool, c: u8)
    requires
        d < 16,
    ensures
        hex_value(digit_byte(d, upper)) == Some(d),
        (c < 48 || (57 < c && c < 65) || (70 < c && c < 97) || 102 < c) ==> hex_value(c) is None,
{
}

/// Law: a '#' followed by six hexadecimal digits, in any mix of cases, names the colour
/// whose channels are the three two-digit numbers they write.
pub proof fn lemma_hex_color_of_digits(d: Seq<u8>, upper: Seq<bool>)
    requires
        d.len() == 6,
        upper.len() == 6,
        forall|i: int| 0 <= i < 6 ==> d[i] < 16,
    ensures
        hex_color(
            seq![35u8] + Seq::new(6, |i: int| digit_byte(d[i], upper[i])),
        ) == Ok::<(u8, u8, u8), HexColorError>(
            (
                (16 * d[0] + d[1]) as u8,
                (16 * d[2] + d[3]) as u8,
                (16 * d[4] + d[5]) as u8,
            ),
        ),
{
    let digits = Seq::new(6, |i: int| digit_byte(d[i], upper[i]));
    let b = seq![35u8] + digits;
    assert(b.drop_first() =~= digits);
    assert forall|i: int| 0 <= i < 6 implies hex_value(#[trigger] digits[i]) == Some(d[i]) by {
        lemma_hex_digits(d[i], upper[i], 0);
    }
    assert(digits[0] != 35u8) by {
        lemma_hex_digits(d[0], upper[0], 0);
    }
    assert(strip_hashes(digits) == digits);
    assert(strip_hashes(b) == digits);
    assert(digits[0] != 43u8);
    assert(digits[2] != 43u8);
    assert(digits[4] != 43u8);
}

/// Why a colour could not be read.
#[derive(Debug, Clone, Copy, PartialEq, Eq, Structural)]
pub enum HexColorError {
    /// Not six bytes once the leading '#' are dropped.
    BadLength,
    /// A channel is not a base-16 number.
    InvalidDigit,
}

/// The colour that the UTF-8 bytes `b` name: after leading '#', six bytes that give red,
/// green and blue two by two.
pub open spec fn hex_color(b: Seq<u8>) -> Result<(u8, u8, u8), HexColorError> {
    let h = strip_hashes(b);
    if h.len() != 6 {
        Err(HexColorError::BadLength)
    } else {
        match (pair_value(h[0], h[1]), pair_value(h[2], h[3]), pair_value(h[4], h[5])) {
            (Some(r), Some(g), Some(bl)) => Ok((r, g, bl)),
            _ => Err(HexColorError::InvalidDigit),
        }
    }
}

/// Whether `hex` can be read without cutting a character in two: the channels are cut at
/// bytes 2 and 4, and the second cut is made only once red has been read.
pub open spec fn hex_cuts_ok(hex: Seq<u8>) -> bool {
    let h = strip_hashes(hex);
    h.len() == 6 ==> is_char_boundary(h, 2) && (pair_value(h[0], h[1]) is Some
        ==> is_char_boundary(h, 4))
}

impl HexColorError {
    /// The message that the front end receives.
    pub fn message(&self) -> (r: String)
        ensures
            r@ == match *self {
                HexColorError::BadLength => "bad hex"@,
                HexColorError::InvalidDigit => "invalid digit found in string"@,
            },
    {
        match self {
            HexColorError::BadLength => "bad hex".to_owned(),
            HexColorError::InvalidDigit => "invalid digit found in string".to_owned(),
        }
    }
}

fn hex_value_exec(c: u8) -> (r: Option<u8>)
    ensures
        r == hex_value(c),
{
    if 48 <= c && c <= 57 {
        Some(c - 48)
    } else if 97 <= c && c <= 102 {
        Some(c - 87)
    } else if 65 <= c && c <= 70 {
        Some(c - 55)
    } else {
        None
    }
}

fn pair_value_exec(hi: u8, lo: u8) -> (r: Option<u8>)
    ensures
        r == pair_value(hi, lo),
{
    if hi == 43u8 {
        hex_value_exec(lo)
    } else {
        match (hex_value_exec(hi), hex_value_exec(lo)) {
            (Some(a), Some(b)) => Some(a * 16 + b),
            _ => None,
        }
    }
}

/// The red, green and blue channels of a colour such as "#1e1e2e".
pub fn parse_hex_color(hex: &str) -> (r: Result<(u8, u8, u8), HexColorError>)
    requires
        hex_cuts_ok(hex.spec_bytes()),
    ensures
        r == hex_color(hex.spec_bytes()),
{
    let b = hex.as_bytes();
    let mut i: usize = 0;
    assert(b@.subrange(0, b.len() as int) =~= b@);
    while i < b.len() && b[i] == 35u8
        invariant
            i <= b.len(),
            strip_hashes(b@) == strip_hashes(b@.subrange(i as int, b.len() as int)),
        decreases b.len() - i,
    {
        assert(b@.subrange(i as int, b.len() as int).drop_first() =~= b@.subrange(
            i + 1,
            b.len() as int,
        ));
        i = i + 1;
    }
    assert(strip_hashes(b@.subrange(i as int, b.len() as int)) == b@.subrange(
        i as int,
        b.len() as int,
    ));
    if b.len() - i != 6 {
        return Err(HexColorError::BadLength);
    }
    let ghost h = b@.subrange(i as int, b.len() as int);
    assert(h[0] == b[i as int] && h[1] == b[i + 1] && h[2] == b[i + 2]);
    assert(h[3] == b[i + 3] && h[4] == b[i + 4] && h[5] == b[i + 5]);
    let red = pair_value_exec(b[i], b[i + 1]);
    let green = pair_value_exec(b[i + 2], b[i + 3]);
    let blue = pair_value_exec(b[i + 4], b[i + 5]);
    match (red, green, blue) {
        (Some(r), Some(g), Some(bl)) => Ok((r, g, bl)),
        _ => Err(HexColorError::InvalidDigit),
    }
}


/// The texts of a list of strings.
pub open spec fn texts(v: Seq<String>) -> Seq<Seq<char>> {
    v.map_values(|u: String| u@)
}

/// The links to queue from a pasted list: each trimmed, empty ones left out, in order.
pub open spec fn cleaned_urls(urls: Seq<Seq<char>>) -> Seq<Seq<char>>
    decreases urls.len(),
{
    if urls.len() == 0 {
        seq![]
    } else {
        let rest = cleaned_urls(urls.drop_last());
        if trim(urls.last()).len() == 0 {
            rest
        } else {
            rest.push(trim(urls.last()))
        }
    }
}

/// The links kept from a pasted list: those that are not blank once trimmed.
pub open spec fn kept_links(urls: Seq<Seq<char>>) -> Seq<Seq<char>> {
    urls.filter(|u: Seq<char>| trim(u).len() > 0)
}

/// Law: the cleaned links are exactly the pasted links that are not blank once trimmed,
/// each trimmed and nothing more, in the order they were pasted.
pub proof fn lemma_cleaned_urls_are_trimmed_links(urls: Seq<Seq<char>>)
    ensures
        cleaned_urls(urls) == kept_links(urls).map_values(|u: Seq<char>| trim(u)),
    decreases urls.len(),
{
    reveal_with_fuel(Seq::<_>::filter, 1);
    if urls.len() > 0 {
        lemma_cleaned_urls_are_trimmed_links(urls.drop_last());
        let k = kept_links(urls.drop_last());
        if trim(urls.last()).len() > 0 {
            assert(kept_links(urls) == k.push(urls.last()));
            assert(k.push(urls.last()).map_values(|u: Seq<char>| trim(u)) =~= k.map_values(
                |u: Seq<char>| trim(u),
            ).push(trim(urls.last())));
        } else {
            assert(kept_links(urls) == k);
        }
    } else {
        assert(kept_links(urls).map_values(|u: Seq<char>| trim(u)) =~= Seq::<Seq<char>>::empty());
    }
}

/// The links to queue from `urls`: each trimmed, the empty ones left out, in order.
pub fn normalize_urls(urls: &Vec<String>) -> (r: Vec<String>)
    ensures
        texts(r@) == cleaned_urls(texts(urls@)),
        texts(r@) == kept_links(texts(urls@)).map_values(|u: Seq<char>| trim(u)),
{
    let mut out: Vec<String> = Vec::new();
    let mut i: usize = 0;
    while i < urls.len()
        invariant
            i <= urls.len(),
            texts(out@) == cleaned_urls(texts(urls@).take(i as int)),
        decreases urls.len() - i,
    {
        let u = trim_string(urls[i].as_str());
        let ghost prefix = texts(urls@).take(i + 1);
        assert(prefix.drop_last() =~= texts(urls@).take(i as int));
        assert(prefix.last() == urls@[i as int]@);
        if !u.as_str().is_empty() {
            out.push(u);
            assert(texts(out@) =~= cleaned_urls(texts(urls@).take(i as int)).push(u@));
        }
        i = i + 1;
    }
    assert(texts(urls@).take(urls.len() as int) =~= texts(urls@));
    proof {
        lemma_cleaned_urls_are_trimmed_links(texts(urls@));
    }
    out
}

/// Law: the cleaned links are all trimmed and none is empty.
pub proof fn lemma_cleaned_urls_shape(urls: Seq<Seq<char>>)
    ensures
        forall|i: int|
            0 <= i < cleaned_urls(urls).len() ==> #[trigger] cleaned_urls(urls)[i].len() > 0
                && trim(cleaned_urls(urls)[i]) == cleaned_urls(urls)[i],
    decreases urls.len(),
{
    if urls.len() > 0 {
        let rest = cleaned_urls(urls.drop_last());
        lemma_cleaned_urls_shape(urls.drop_last());
        lemma_trim_idempotent(urls.last());
        assert forall|i: int| 0 <= i < cleaned_urls(urls).len() implies #[trigger] cleaned_urls(
            urls,
        )[i].len() > 0 && trim(cleaned_urls(urls)[i]) == cleaned_urls(urls)[i] by {
            if i < rest.len() {
                assert(cleaned_urls(urls)[i] == rest[i]);
            }
        }
    }
}

/// Law: cleaning the links a second time changes nothing.
pub proof fn lemma_cleaned_urls_idempotent(urls: Seq<Seq<char>>)
    ensures
        cleaned_urls(cleaned_urls(urls)) == cleaned_urls(urls),
    decreases urls.len(),
{
    if urls.len() > 0 {
        let rest = cleaned_urls(urls.drop_last());
        lemma_cleaned_urls_idempotent(urls.drop_last());
        let t = trim(urls.last());
        if t.len() > 0 {
            lemma_trim_idempotent(urls.last());
            assert(rest.push(t).drop_last() =~= rest);
        }
    }
}

/// What the maximise button does to the window.
#[derive(Debug, Clone, Copy, PartialEq, Eq, Structural)]
pub enum MaximizeAction {
    Maximize,
    Unmaximize,
}

/// The maximise button restores a maximised window and maximises any other; a window
/// whose state cannot be read counts as not maximised.
pub fn toggle_maximize(is_maximized: Option<bool>) -> (r: MaximizeAction)
    ensures
        r == (if is_maximized == Some(true) {
            MaximizeAction::Unmaximize
        } else {
            MaximizeAction::Maximize
        }),
{
    match is_maximized {
        Some(true) => MaximizeAction::Unmaximize,
        _ => MaximizeAction::Maximize,
    }
}

/// What opening a downloaded file opens.
#[derive(Debug, Clone, Copy, PartialEq, Eq, Structural)]
pub enum OpenTarget {
    /// The file itself, with its default application.
    File,
    /// The folder that should hold it, in the file explorer.
    ParentFolder,
}

/// How to open the file at `path`: the file when it is one, else its folder when that
/// exists, else the error "path not found: " followed by the path.
pub fn open_file_plan(path: &str, is_file: bool, parent_exists: bool) -> (r: Result<
    OpenTarget,
    String,
>)
    ensures
        is_file ==> r == Ok::<OpenTarget, String>(OpenTarget::File),
        !is_file && parent_exists ==> r == Ok::<OpenTarget, String>(OpenTarget::ParentFolder),
        !is_file && !parent_exists ==> (r matches Err(m) && m@ == "path not found: "@ + path@),
{
    if is_file {
        Ok(OpenTarget::File)
    } else if parent_exists {
        Ok(OpenTarget::ParentFolder)
    } else {
        let mut m = "path not found: ".to_owned();
        m.append(path);
        Err(m)
    }
}

/// What the file explorer shows for a path.
#[derive(Debug, Clone, Copy, PartialEq, Eq, Structural)]
pub enum ExplorerTarget {
    /// The folder holding the file, with the file selected.
    SelectFile,
    /// The path itself.
    Path,
    /// The path's parent.
    Parent,
}

/// What to show in the file explorer for a path: a file selected in its folder; a folder
/// itself; for anything else its parent, or the path itself when it has none.
pub fn explorer_target(is_file: bool, is_dir: bool, has_parent: bool) -> (r: ExplorerTarget)
    ensures
        r == (if is_file {
            ExplorerTarget::SelectFile
        } else if is_dir || !has_parent {
            ExplorerTarget::Path
        } else {
            ExplorerTarget::Parent
        }),
{
    if is_file {
        ExplorerTarget::SelectFile
    } else if is_dir {
        ExplorerTarget::Path
    } else if has_parent {
        ExplorerTarget::Parent
    } else {
        ExplorerTarget::Path
    }
}

/// The explorer argument that selects the file at `path`.
pub fn select_argument(path: &str) -> (r: String)
    ensures
        r@ == "/select,"@ + path@,
{
    let mut a = "/select,".to_owned();
    a.append(path);
    a
}


#[verifier::external_type_specification]
#[verifier::external_body]
pub struct ExJsonValue(serde_json::Value);

/// Names what `serde_json::from_str::<serde_json::Value>` gives for a text: the JSON value
/// it reads from the text, else the text of the error it reports.
pub uninterp spec fn spec_json_parse(text: Seq<char>) -> Result<serde_json::Value, Seq<char>>;

/// Calls `serde_json::from_str` to read `text` as a JSON value, and turns an error into
/// its text with `to_string`. The contract claims that the value read, or the error text,
/// is the named one.
#[verifier::external_body]
fn parse_json(text: &str) -> (r: Result<serde_json::Value, String>)
    ensures
        match r {
            Ok(v) => spec_json_parse(text@) == Ok::<serde_json::Value, Seq<char>>(v),
            Err(m) => spec_json_parse(text@) == Err::<serde_json::Value, Seq<char>>(m@),
        },
{
    serde_json::from_str(text).map_err(|e| e.to_string())
}

/// Names what `String::from_utf8_lossy` gives for bytes: their UTF-8 decoding, with each
/// invalid sequence replaced by U+FFFD.
pub uninterp spec fn spec_utf8_lossy(bytes: Seq<u8>) -> Seq<char>;

/// Calls `String::from_utf8_lossy`; the contract claims the named result, and that valid
/// UTF-8 comes back decoded unchanged, as the function's documentation states.
#[verifier::external_body]
fn utf8_lossy(bytes: &[u8]) -> (r: String)
    ensures
        r@ == spec_utf8_lossy(bytes@),
        valid_utf8(bytes@) ==> r@ == decode_utf8(bytes@),
{
    String::from_utf8_lossy(bytes).into_owned()
}

/// What a playlist probe leads to, given the text that `yt-dlp -J` printed: an error when
/// it printed nothing but white space, else what reading it as JSON gives.
pub open spec fn probe_outcome(text: Seq<char>) -> Result<serde_json::Value, Seq<char>> {
    if trim(text).len() == 0 {
        Err("yt-dlp produced no output"@)
    } else {
        match spec_json_parse(text) {
            Ok(v) => Ok(v),
            Err(e) => Err("parse: "@ + e),
        }
    }
}

/// The playlist description in the text that `yt-dlp -J` printed.
pub fn parse_probe_output(text: &str) -> (r: Result<serde_json::Value, String>)
    ensures
        match r {
            Ok(v) => probe_outcome(text@) == Ok::<serde_json::Value, Seq<char>>(v),
            Err(m) => probe_outcome(text@) == Err::<serde_json::Value, Seq<char>>(m@),
        },
{
    let t = trim_string(text);
    if t.as_str().is_empty() {
        return Err("yt-dlp produced no output".to_owned());
    }
    match parse_json(text) {
        Ok(v) => Ok(v),
        Err(e) => {
            let mut m = "parse: ".to_owned();
            m.append(e.as_str());
            Err(m)
        },
    }
}

/// The playlist description in what `yt-dlp -J` wrote to standard output.
pub fn probe_output(stdout: &[u8]) -> (r: Result<serde_json::Value, String>)
    ensures
        match r {
            Ok(v) => probe_outcome(spec_utf8_lossy(stdout@)) == Ok::<serde_json::Value, Seq<char>>(
                v,
            ),
            Err(m) => probe_outcome(spec_utf8_lossy(stdout@)) == Err::<
                serde_json::Value,
                Seq<char>,
            >(m@),
        },
        valid_utf8(stdout@) ==> match r {
            Ok(v) => probe_outcome(decode_utf8(stdout@)) == Ok::<serde_json::Value, Seq<char>>(v),
            Err(m) => probe_outcome(decode_utf8(stdout@)) == Err::<serde_json::Value, Seq<char>>(
                m@,
            ),
        },
{
    let text = utf8_lossy(stdout);
    parse_probe_output(text.as_str())
}

/// Adds what `evt` carries on standard output to `buf`, and says whether the process has
/// ended; standard error is left out.
pub fn absorb_stdout(buf: &mut Vec<u8>, evt: &ProcessEvent) -> (done: bool)
    ensures
        done == (*evt is Terminated),
        final(buf)@ == match *evt {
            ProcessEvent::Stdout(b) => old(buf)@ + b@,
            _ => old(buf)@,
        },
{
    match evt {
        ProcessEvent::Stdout(b) => {
            buf.extend_from_slice(b.as_slice());
            assert(final(buf)@ =~= old(buf)@ + b@);
            false
        },
        ProcessEvent::Terminated => true,
        _ => false,
    }
}

} // verus!
