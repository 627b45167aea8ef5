//! What the "time's up" window shows: a configured picture, or a text.
use vstd::prelude::*;

verus! {

/// The font size of the reminder text unless one is configured.
pub const DEFAULT_FONT_SIZE: u16 = 180;

/// The reminder text unless one is configured.
pub open spec fn default_text() -> Seq<char> {
    ":) Time out!!!!!"@
}

/// How a configured picture is shown.
#[derive(Clone, Copy, Debug, PartialEq, Eq, Structural)]
pub enum PictureKind {
    /// A still image.
    Still,
    /// An animated image, decoded frame by frame.
    Animated,
}

/// The kind of picture a file extension stands for: `gif` is animated,
/// anything else (or no extension) a still image.
pub open spec fn kind_of_extension(ext: Option<Seq<char>>) -> PictureKind {
    if ext == Some("gif"@) {
        PictureKind::Animated
    } else {
        PictureKind::Still
    }
}

/// A path that is a bare file name on every platform (no `/`, `\\` or `:`)
/// and ends in `.gif` after at least one other character.
pub open spec fn is_plain_gif_name(p: Seq<char>) -> bool {
    &&& p.len() > 4
    &&& p.subrange(p.len() - 4, p.len() as int) == ".gif"@
    &&& forall|i: int| 0 <= i < p.len() ==> p[i] != '/' && p[i] != '\\' && p[i] != ':'
}

/// Relies on std::path::Path::extension: the part of the file name after
/// its last dot, so it holds no dot itself; a path without a dot has none,
/// and a bare file name ending in `.gif` has `gif`.
#[verifier::external_body]
fn path_extension(path: &str) -> (r: Option<String>)
    ensures
        r matches Some(e) ==> !e@.contains('.'),
        is_plain_gif_name(path@) ==> r is Some && r->Some_0@ == "gif"@,
        !path@.contains('.') ==> r is None,
{
    std::path::Path::new(path).extension().and_then(|e| e.to_str()).map(|e| e.to_string())
}

/// The picture kind for an extension as `Path::extension` gives it.
pub fn picture_kind_for_extension(ext: &Option<String>) -> (r: PictureKind)
    ensures
        r == kind_of_extension(
            match ext {
                Some(e) => Some(e@),
                None => None,
            },
        ),
{
    proof {
        reveal_strlit("gif");
    }
    match ext {
        Some(e) => {
            let gif = "gif".to_owned();
            if *e == gif {
                PictureKind::Animated
            } else {
                assert(e@ != "gif"@);
                PictureKind::Still
            }
        },
        None => PictureKind::Still,
    }
}

/// How the picture at a configured path is shown; `None` where no picture is
/// configured, and the reminder shows its text.
pub fn picture_kind(image_path: &Option<String>) -> (r: Option<PictureKind>)
    ensures
        r is None <==> image_path is None,
        image_path matches Some(p) && is_plain_gif_name(p@) ==> r == Some(PictureKind::Animated),
        image_path matches Some(p) && !p@.contains('.') ==> r == Some(PictureKind::Still),
{
    match image_path {
        Some(path) => Some(picture_kind_for_extension(&path_extension(path.as_str()))),
        None => None,
    }
}

/// The reminder's text, its colour, font size and optional size.
pub struct Reminder<C> {
    pub text: String,
    pub color: C,
    pub font_size: u16,
    pub width: Option<u16>,
    pub height: Option<u16>,
}

impl<C> Reminder<C> {
    /// A reminder from the configured values, each falling back to its
    /// default where it is not configured.
    pub fn new(
        text: &Option<String>,
        color: Option<C>,
        font_size: Option<u16>,
        width: Option<u16>,
        height: Option<u16>,
        default_color: C,
    ) -> (r: Reminder<C>)
        ensures
            r.text@ == (match text {
                Some(t) => t@,
                None => default_text(),
            }),
            r.color == (match color {
                Some(c) => c,
                None => default_color,
            }),
            r.font_size == (match font_size {
                Some(f) => f,
                None => DEFAULT_FONT_SIZE,
            }),
            r.width == width,
            r.height == height,
    {
        let text = match text {
            Some(t) => t.clone(),
            None => ":) Time out!!!!!".to_owned(),
        };
        let color = match color {
            Some(c) => c,
            None => default_color,
        };
        let font_size = match font_size {
            Some(f) => f,
            None => DEFAULT_FONT_SIZE,
        };
        Reminder { text, color, font_size, width, height }
    }
}

} // verus!
