//! Core logic of a screenshot-annotation editor: the shape model, the
//! annotation and crop state machines, the shared coordinate mapper, and the
//! compositor that flattens the annotation layer onto the source pixels.
//!
//! All geometry is measured in integer logical units (the source image's
//! pixel grid). The host application owns the windowing, capture and file
//! dialogs and feeds the engines plain pointer events.

pub mod annotations;
pub mod canvas_to_pixels;
pub mod color;
pub mod crop_tool;
pub mod editor;
pub mod geometry;
pub mod input;
pub mod laws;
pub mod primitive;
pub mod render;
pub mod shapes;

use vstd::prelude::*;
use vstd::string::is_ascii_spec_bytes;
use vstd::string::StringSliceAdditionalSpecFns;
use vstd::string::StringExecFns;
use vstd::string::StrSliceExecFns;

verus! {

/// Formats the editor can export to.
#[derive(Debug, Clone, Copy, PartialEq, Eq, Structural)]
pub enum ImageFormat {
    Png,
    Bmp,
    Jpeg,
    Gif,
}

impl ImageFormat {
    /// The name `as_str` returns, as shown in the format picker and written
    /// to the config record.
    pub open spec fn label(self) -> Seq<char> {
        match self {
            Self::Png => "Png"@,
            Self::Bmp => "Bitmap"@,
            Self::Jpeg => "Jpeg"@,
            Self::Gif => "Gif"@,
        }
    }

    /// Human-readable name, as shown in the format picker.
    pub fn as_str(&self) -> (r: &'static str)
        ensures
            r@ == self.label(),
    {
        match self {
            Self::Png => "Png",
            Self::Bmp => "Bitmap",
            Self::Jpeg => "Jpeg",
            Self::Gif => "Gif",
        }
    }

    /// The file extension a generated file name carries.
    pub open spec fn spec_extension(self) -> Seq<char> {
        match self {
            Self::Png => "png"@,
            Self::Bmp => "bmp"@,
            Self::Jpeg => "jpg"@,
            Self::Gif => "gif"@,
        }
    }

    pub fn extension(&self) -> (r: &'static str)
        ensures
            r@ == self.spec_extension(),
    {
        match self {
            Self::Png => "png",
            Self::Bmp => "bmp",
            Self::Jpeg => "jpg",
            Self::Gif => "gif",
        }
    }

    /// The format a config record names, by the same names `as_str` writes;
    /// nothing for any other record.
    pub open spec fn spec_from_name(name: Seq<char>) -> Option<ImageFormat> {
        if name == "Png"@ {
            Some(ImageFormat::Png)
        } else if name == "Bmp"@ {
            Some(ImageFormat::Bmp)
        } else if name == "Jpeg"@ {
            Some(ImageFormat::Jpeg)
        } else if name == "Gif"@ {
            Some(ImageFormat::Gif)
        } else {
            None
        }
    }

    pub fn from_name(name: &String) -> (r: Option<ImageFormat>)
        ensures
            r == ImageFormat::spec_from_name(name@),
    {
        if name.eq(&String::from_str("Png")) {
            Some(ImageFormat::Png)
        } else if name.eq(&String::from_str("Bmp")) {
            Some(ImageFormat::Bmp)
        } else if name.eq(&String::from_str("Jpeg")) {
            Some(ImageFormat::Jpeg)
        } else if name.eq(&String::from_str("Gif")) {
            Some(ImageFormat::Gif)
        } else {
            None
        }
    }

    /// The four formats with `first` moved to the front by one swap — the
    /// order the save dialog lists its filters in.
    pub open spec fn spec_with_first(first: ImageFormat) -> Seq<ImageFormat> {
        match first {
            ImageFormat::Png => seq![
                ImageFormat::Png,
                ImageFormat::Bmp,
                ImageFormat::Jpeg,
                ImageFormat::Gif,
            ],
            ImageFormat::Bmp => seq![
                ImageFormat::Bmp,
                ImageFormat::Png,
                ImageFormat::Jpeg,
                ImageFormat::Gif,
            ],
            ImageFormat::Jpeg => seq![
                ImageFormat::Jpeg,
                ImageFormat::Bmp,
                ImageFormat::Png,
                ImageFormat::Gif,
            ],
            ImageFormat::Gif => seq![
                ImageFormat::Gif,
                ImageFormat::Bmp,
                ImageFormat::Jpeg,
                ImageFormat::Png,
            ],
        }
    }

    pub fn with_first(first: ImageFormat) -> (r: Vec<ImageFormat>)
        ensures
            r@ == ImageFormat::spec_with_first(first),
            r@[0] == first,
    {
        let r = match first {
            ImageFormat::Png => vec![
                ImageFormat::Png,
                ImageFormat::Bmp,
                ImageFormat::Jpeg,
                ImageFormat::Gif,
            ],
            ImageFormat::Bmp => vec![
                ImageFormat::Bmp,
                ImageFormat::Png,
                ImageFormat::Jpeg,
                ImageFormat::Gif,
            ],
            ImageFormat::Jpeg => vec![
                ImageFormat::Jpeg,
                ImageFormat::Bmp,
                ImageFormat::Png,
                ImageFormat::Gif,
            ],
            ImageFormat::Gif => vec![
                ImageFormat::Gif,
                ImageFormat::Bmp,
                ImageFormat::Jpeg,
                ImageFormat::Png,
            ],
        };
        proof {
            assert(r@ =~= ImageFormat::spec_with_first(first));
        }
        r
    }
}

/// Screenshot delays the user can pick.
#[derive(Debug, Clone, Copy, PartialEq, Eq, Structural)]
pub enum Delays {
    Zero,
    Three,
    Five,
    Ten,
}

impl Delays {
    /// How long the capture is postponed; even "no delay" waits half a
    /// second so the window can hide itself.
    pub fn millis(&self) -> (r: u64)
        ensures
            r == match *self {
                Delays::Zero => 500int,
                Delays::Three => 3000int,
                Delays::Five => 5000int,
                Delays::Ten => 10000int,
            },
    {
        match self {
            Delays::Zero => 500,
            Delays::Three => 3000,
            Delays::Five => 5000,
            Delays::Ten => 10000,
        }
    }

    /// The label shown in the delay picker.
    pub fn label(&self) -> (r: &'static str)
        ensures
            r@ == match *self {
                Delays::Zero => "Nessun delay"@,
                Delays::Three => "3s"@,
                Delays::Five => "5s"@,
                Delays::Ten => "10s"@,
            },
    {
        match self {
            Delays::Zero => "Nessun delay",
            Delays::Three => "3s",
            Delays::Five => "5s",
            Delays::Ten => "10s",
        }
    }

    /// Every delay, in picker order.
    pub fn all_delays() -> (r: Vec<Delays>)
        ensures
            r@ == seq![Delays::Zero, Delays::Three, Delays::Five, Delays::Ten],
    {
        let r = vec![Delays::Zero, Delays::Three, Delays::Five, Delays::Ten];
        proof {
            assert(r@ =~= seq![Delays::Zero, Delays::Three, Delays::Five, Delays::Ten]);
        }
        r
    }
}

/// What the capture backend reports of one display.
#[derive(Debug, Clone, Copy, PartialEq, Eq, Structural)]
pub struct DisplayInfo {
    pub id: u32,
    pub is_primary: bool,
}

/// One selectable screen: the display's id, its 1-based position in the
/// list, and whether it is the primary display.
#[derive(Debug, Clone, Copy, PartialEq, Eq, Structural)]
pub struct Screen {
    pub id: u32,
    pub index: usize,
    pub primary: bool,
}

/// The screen entry made from display `i` of the backend's list.
pub open spec fn spec_screen_of(infos: Seq<DisplayInfo>, i: int) -> Screen {
    Screen { id: infos[i].id, index: (i + 1) as usize, primary: infos[i].is_primary }
}

/// The position of the first primary display at or after `from`, if any.
pub open spec fn spec_first_primary(infos: Seq<DisplayInfo>, from: int) -> Option<int>
    decreases infos.len() - from when 0 <= from <= infos.len()
{
    if from >= infos.len() {
        None
    } else if infos[from].is_primary {
        Some(from)
    } else {
        spec_first_primary(infos, from + 1)
    }
}

impl Screen {
    /// The selectable screens of the backend's display list, numbered from
    /// one in list order.
    pub fn all_from(infos: &Vec<DisplayInfo>) -> (r: Vec<Screen>)
        requires
            infos@.len() < usize::MAX,
        ensures
            r@.len() == infos@.len(),
            forall|i: int| 0 <= i < r@.len() ==> r@[i] == spec_screen_of(infos@, i),
    {
        let mut r: Vec<Screen> = Vec::with_capacity(infos.len());
        let mut i: usize = 0;
        while i < infos.len()
            invariant
                infos@.len() < usize::MAX,
                i <= infos@.len(),
                r@.len() == i,
                forall|j: int| 0 <= j < i ==> r@[j] == spec_screen_of(infos@, j),
            decreases infos@.len() - i,
        {
            let info = infos[i];
            r.push(Screen { id: info.id, index: i + 1, primary: info.is_primary });
            i = i + 1;
        }
        r
    }

    /// The first primary display as a screen entry, if the backend reports
    /// one.
    pub fn primary_from(infos: &Vec<DisplayInfo>) -> (r: Option<Screen>)
        requires
            infos@.len() < usize::MAX,
        ensures
            r == match spec_first_primary(infos@, 0) {
                Some(i) => Some(spec_screen_of(infos@, i)),
                None => None::<Screen>,
            },
    {
        let mut i: usize = 0;
        while i < infos.len()
            invariant
                infos@.len() < usize::MAX,
                i <= infos@.len(),
                spec_first_primary(infos@, 0) == spec_first_primary(infos@, i as int),
            decreases infos@.len() - i,
        {
            if infos[i].is_primary {
                return Some(Screen { id: infos[i].id, index: i + 1, primary: true });
            }
            i = i + 1;
        }
        None
    }
}

/// `s` shortened so it never wraps in the settings pane: anything longer
/// than 21 characters keeps its first 18 and ends in an ellipsis.
pub open spec fn spec_cut_default_path(s: Seq<char>) -> Seq<char> {
    if s.len() > 21 {
        s.subrange(0, 18) + "..."@
    } else {
        s
    }
}

/// Truncates a path string to a fixed display width.
pub fn cut_default_path(s: &str) -> (r: String)
    requires
        s.is_ascii(),
    ensures
        r@ == spec_cut_default_path(s@),
{
    proof {
        is_ascii_spec_bytes(s);
    }
    let n = s.as_bytes().len();
    if n > 21 {
        let head = s.substring_ascii(0, 21 - 3);
        let mut r = head.to_owned();
        r.append("...");
        r
    } else {
        s.to_owned()
    }
}

/// The position of the first line break at or after `from`, or the string's
/// length if the rest has none.
pub open spec fn spec_find_newline(s: Seq<char>, from: int) -> int
    decreases s.len() - from when 0 <= from <= s.len()
{
    if from >= s.len() {
        s.len() as int
    } else if s[from] == '\n' {
        from
    } else {
        spec_find_newline(s, from + 1)
    }
}

/// One config line: the break itself is excluded, and a trailing carriage
/// return is dropped.
pub open spec fn spec_strip_cr(s: Seq<char>) -> Seq<char> {
    if s.len() > 0 && s.last() == '\r' {
        s.drop_last()
    } else {
        s
    }
}

/// The two-line config record `{save_path}\n{format_name}`: the save path
/// and the named format. Nothing when the second line is missing; a record
/// whose format line matches no format name keeps the path and no format.
pub open spec fn spec_parse_config(s: Seq<char>) -> Option<(Seq<char>, Option<ImageFormat>)> {
    if s.len() == 0 {
        None
    } else {
        let i = spec_find_newline(s, 0);
        if i >= s.len() {
            None
        } else if i + 1 >= s.len() {
            None
        } else {
            let j = spec_find_newline(s, i + 1);
            Some(
                (
                    spec_strip_cr(s.subrange(0, i)),
                    ImageFormat::spec_from_name(spec_strip_cr(s.subrange(i + 1, j))),
                ),
            )
        }
    }
}

/// The index `find_newline` returns is a line break or the end, with none
/// before it.
#[verifier::loop_isolation(false)]
fn find_newline(s: &str, from: usize) -> (r: usize)
    requires
        s.is_ascii(),
        from <= s@.len(),
    ensures
        r == spec_find_newline(s@, from as int),
        from <= r <= s@.len(),
{
    proof {
        is_ascii_spec_bytes(s);
    }
    let b = s.as_bytes();
    let n = b.len();
    let mut i = from;
    while i < n
        invariant
            from <= i <= n,
            spec_find_newline(s@, from as int) == spec_find_newline(s@, i as int),
        decreases n - i,
    {
        proof {
            assert(b@[i as int] == s@[i as int] as u8);
            assert('\u{0}' <= s@[i as int] <= '\u{7f}');
        }
        if b[i] == 10 {
            proof {
                assert(s@[i as int] == '\n');
            }
            return i;
        }
        proof {
            assert(s@[i as int] != '\n');
        }
        i = i + 1;
    }
    n
}

/// Extracts the line `[from, to)` of `s`, dropping a trailing carriage
/// return.
fn line_of(s: &str, from: usize, to: usize) -> (r: String)
    requires
        s.is_ascii(),
        from <= to <= s@.len(),
    ensures
        r@ == spec_strip_cr(s@.subrange(from as int, to as int)),
{
    proof {
        is_ascii_spec_bytes(s);
        if to > from {
            assert(s.spec_bytes()[to - 1] == s@[to - 1] as u8);
            assert('\u{0}' <= s@[to - 1] <= '\u{7f}');
        }
    }
    let b = s.as_bytes();
    let end = if to > from && b[to - 1] == 13 {
        proof {
            assert(s@[to - 1] == '\r');
        }
        to - 1
    } else {
        to
    };
    proof {
        if !(to > from && s.spec_bytes()[to - 1] == 13) && to > from {
            assert(s@[to - 1] != '\r');
        }
    }
    let line = s.substring_ascii(from, end);
    proof {
        if to > from && s@[to - 1] == '\r' {
            assert(s@.subrange(from as int, to as int).last() == s@[to - 1]);
            assert(s@.subrange(from as int, end as int) =~= s@.subrange(
                from as int,
                to as int,
            ).drop_last());
        }
    }
    line.to_owned()
}

/// Parses the two-line config record: the first line is the save path, the
/// second names the default format. Nothing when the record has no second
/// line; an unknown format name keeps the path and yields no format.
pub fn parse_config(contents: &str) -> (r: Option<(String, Option<ImageFormat>)>)
    requires
        contents.is_ascii(),
    ensures
        match (r, spec_parse_config(contents@)) {
            (Some((path, format)), Some(expected)) => path@ == expected.0 && format == expected.1,
            (None, None) => true,
            _ => false,
        },
{
    proof {
        is_ascii_spec_bytes(contents);
    }
    let n = contents.as_bytes().len();
    proof {
        assert(n == contents@.len());
    }
    if n == 0 {
        return None;
    }
    let i = find_newline(contents, 0);
    if i >= n || i + 1 >= n {
        return None;
    }
    let j = find_newline(contents, i + 1);
    let path = line_of(contents, 0, i);
    let name = line_of(contents, i + 1, j);
    let format = ImageFormat::from_name(&name);
    Some((path, format))
}

/// Relies on chrono: `Utc::now` converted to the local zone, formatted as
/// `%Y-%m-%d` and `%H-%M-%S`. The strings depend on the time of the call,
/// so nothing is promised of them.
#[verifier::external_body]
fn local_date_time_strings() -> (String, String) {
    let utc = chrono::Utc::now();
    let converted: chrono::DateTime<chrono::Local> = chrono::DateTime::from(utc);
    (converted.format("%Y-%m-%d").to_string(), converted.format("%H-%M-%S").to_string())
}

/// The name a screenshot is saved under on the given date and time:
/// `screenshot_{date}_{time}.{extension}`.
pub fn file_name_from(date: &str, time: &str, format: ImageFormat) -> (r: String)
    ensures
        r@ == "screenshot_"@ + date@ + "_"@ + time@ + "."@ + format.spec_extension(),
{
    let mut r = String::from_str("screenshot_");
    r.append(date);
    r.append("_");
    r.append(time);
    r.append(".");
    r.append(format.extension());
    proof {
        assert(r@ =~= "screenshot_"@ + date@ + "_"@ + time@ + "."@ + format.spec_extension());
    }
    r
}

/// Generates the name a screenshot is saved under:
/// `screenshot_{date}_{time}.{extension}` with the current local date and
/// time.
pub fn generate_file_name(format: ImageFormat) -> (r: String)
    ensures
        exists|date: Seq<char>, time: Seq<char>|
            r@ == "screenshot_"@ + date + "_"@ + time + "."@ + format.spec_extension(),
{
    let (date, time) = local_date_time_strings();
    let r = file_name_from(date.as_str(), time.as_str(), format);
    proof {
        assert(r@ == "screenshot_"@ + date@ + "_"@ + time@ + "."@ + format.spec_extension());
    }
    r
}

} // verus!
