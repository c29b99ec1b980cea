//! The icons of applications: images, and the table of those looked up so far.

use vstd::prelude::*;
use crate::canoe::render::colored;
use crate::text::same;

verus! {

/// Names the image that `tiny_skia::Pixmap::decode_png` reads from a file:
/// width, height and the bytes of the pixels, or `None` where it refuses the
/// file.
pub uninterp spec fn png_image(data: Seq<u8>) -> Option<(u32, u32, Seq<u8>)>;

/// An image: rows of pixels, each of them red, green, blue and alpha, the
/// colours multiplied by alpha.
#[derive(Debug)]
pub struct IconImage {
    pub width: u32,
    pub height: u32,
    pub rgba: Vec<u8>,
}

impl IconImage {
    pub open spec fn wf(self) -> bool {
        &&& self.width > 0
        &&& self.height > 0
        &&& self.rgba@.len() == self.width * self.height * 4
    }
}

/// An image by its contents.
pub open spec fn image_view(image: Option<IconImage>) -> Option<(u32, u32, Seq<u8>)> {
    match image {
        Some(image) => Some((image.width, image.height, image.rgba@)),
        None => None,
    }
}

/// Calls `tiny_skia::Pixmap::decode_png`. Claims that the bytes of the file
/// alone decide what comes out, which [`png_image`] names, and that an image
/// has pixels, four bytes for each of them.
#[verifier::external_body]
fn decode_png(data: &Vec<u8>) -> (r: Option<IconImage>)
    ensures
        image_view(r) == png_image(data@),
        r matches Some(image) ==> image.wf(),
{
    let pixmap = resvg::tiny_skia::Pixmap::decode_png(data).ok()?;
    let (width, height) = (pixmap.width(), pixmap.height());
    Some(IconImage { width, height, rgba: pixmap.take() })
}

/// Whether an image has to be scaled before it is shown as an icon of a size
pub fn needs_scaling(width: u32, height: u32, size: u32) -> (r: bool)
    ensures
        r == !(width == size && height == size),
{
    width != size || height != size
}

/// The image in a file of pixels, and whether it has to be scaled to a size
pub fn load_png(data: &Vec<u8>, size: u32) -> (r: Option<(IconImage, bool)>)
    ensures
        match (r, png_image(data@)) {
            (Some((image, scale)), Some((width, height, rgba))) => image.wf() && image.width
                == width && image.height == height && image.rgba@ == rgba && scale == !(width
                == size && height == size),
            (None, None) => true,
            _ => false,
        },
{
    match decode_png(data) {
        Some(image) => {
            let scale: bool = needs_scaling(image.width, image.height, size);
            Some((image, scale))
        },
        None => None,
    }
}

/// The colour of a pixel.
pub open spec fn pixel_color(rgba: Seq<u8>, i: int) -> u32 {
    colored(
        rgba[i * 4 + 3] as int,
        rgba[i * 4] as int,
        rgba[i * 4 + 1] as int,
        rgba[i * 4 + 2] as int,
    )
}

/// The colours of the pixels
pub fn argb_pixels(rgba: &Vec<u8>) -> (r: Vec<u32>)
    ensures
        r@ == Seq::new((rgba@.len() / 4) as nat, |i: int| pixel_color(rgba@, i)),
{
    let ghost want = Seq::new((rgba@.len() / 4) as nat, |i: int| pixel_color(rgba@, i));
    let count: usize = rgba.len() / 4;
    let mut r: Vec<u32> = Vec::new();
    let mut i: usize = 0;
    while i < count
        invariant
            i <= count,
            count == rgba@.len() / 4,
            want == Seq::new((rgba@.len() / 4) as nat, |k: int| pixel_color(rgba@, k)),
            r@ == want.take(i as int),
        decreases count - i,
    {
        assert(i * 4 + 4 <= rgba.len() <= usize::MAX);
        let at: usize = i * 4;
        let argb: u32 = rgba[at + 3] as u32 * 0x1000000 + rgba[at] as u32 * 0x10000 + rgba[at
            + 1] as u32 * 0x100 + rgba[at + 2] as u32;
        r.push(argb);
        i = i + 1;
        assert(r@ =~= want.take(i as int));
    }
    assert(r@ =~= want);
    r
}

/// An icon that was looked up: an application, a size in pixels, and the number
/// of the icon where there is one.
pub struct IconEntryView {
    pub app_id: Seq<char>,
    pub size_px: i32,
    pub icon: Option<usize>,
}

/// The icons that were looked up, by application and size in pixels. An
/// application may have an icon in one size and another one, or none, in
/// another.
#[derive(Debug)]
pub struct IconTable {
    names: Vec<String>,
    sizes: Vec<i32>,
    icons: Vec<Option<usize>>,
}

impl View for IconTable {
    type V = Seq<IconEntryView>;

    closed spec fn view(&self) -> Seq<IconEntryView> {
        Seq::new(
            self.names@.len(),
            |i: int|
                IconEntryView {
                    app_id: self.names@[i]@,
                    size_px: self.sizes@[i],
                    icon: self.icons@[i],
                },
        )
    }
}

/// What a table says of an application at a size: nothing if it was not looked
/// up.
pub open spec fn looked_up(table: Seq<IconEntryView>, app_id: Seq<char>, size_px: i32) -> Option<Option<usize>>
    decreases table.len(),
{
    if table.len() == 0 {
        None
    } else if table.last().app_id == app_id && table.last().size_px == size_px {
        Some(table.last().icon)
    } else {
        looked_up(table.drop_last(), app_id, size_px)
    }
}

impl IconTable {
    pub closed spec fn wf(&self) -> bool {
        &&& self.names@.len() == self.icons@.len()
        &&& self.names@.len() == self.sizes@.len()
    }

    pub fn new() -> (r: Self)
        ensures
            r.wf(),
            r@ == Seq::<IconEntryView>::empty(),
    {
        let r = IconTable { names: Vec::new(), sizes: Vec::new(), icons: Vec::new() };
        assert(r@ =~= Seq::<IconEntryView>::empty());
        r
    }

    /// What is known of an application at a size in pixels
    pub fn get_icon(&self, app_id: &str, size_px: i32) -> (r: Option<Option<usize>>)
        requires
            self.wf(),
        ensures
            r == looked_up(self@, app_id@, size_px),
    {
        let mut n: usize = self.names.len();
        assert(self@.take(n as int) =~= self@);
        while n > 0
            invariant
                n <= self.names@.len(),
                self.wf(),
                looked_up(self@, app_id@, size_px) == looked_up(
                    self@.take(n as int),
                    app_id@,
                    size_px,
                ),
            decreases n,
        {
            assert(self@.take(n as int).drop_last() =~= self@.take(n - 1));
            assert(self@.take(n as int).last() == self@[n - 1]);
            n = n - 1;
            if self.sizes[n] == size_px && same(self.names[n].as_str(), app_id) {
                return Some(self.icons[n]);
            }
        }
        None
    }

    /// Note what was found for an application at a size in pixels
    pub fn insert(&mut self, app_id: &str, size_px: i32, icon: Option<usize>)
        requires
            old(self).wf(),
        ensures
            final(self).wf(),
            final(self)@ == old(self)@.push(IconEntryView { app_id: app_id@, size_px, icon }),
    {
        self.names.push(app_id.to_string());
        self.sizes.push(size_px);
        self.icons.push(icon);
        assert(self@ =~= old(self)@.push(IconEntryView { app_id: app_id@, size_px, icon }));
    }
}

/// What was noted of an application at a size is found again, and nothing
/// changes for other applications or other sizes.
pub proof fn law_noted_icons_are_found(
    table: Seq<IconEntryView>,
    app_id: Seq<char>,
    size_px: i32,
    icon: Option<usize>,
    other: Seq<char>,
    other_px: i32,
)
    ensures
        looked_up(table.push(IconEntryView { app_id, size_px, icon }), app_id, size_px) == Some(
            icon,
        ),
        other != app_id || other_px != size_px ==> looked_up(
            table.push(IconEntryView { app_id, size_px, icon }),
            other,
            other_px,
        ) == looked_up(table, other, other_px),
{
    assert(table.push(IconEntryView { app_id, size_px, icon }).drop_last() =~= table);
}

} // verus!
