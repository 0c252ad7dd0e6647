use vstd::prelude::*;
use vstd::utf8::{decode_utf8, valid_utf8};

use crate::targets::{spec_target_dimensions, Display, Target};

verus! {

/// The size in pixels of a target: a display's width and height; the size
/// of a window is not looked up and reads as zero.
pub fn get_target_dimensions(target: &Target) -> (dims: (u64, u64))
    ensures
        dims == spec_target_dimensions(*target),
        target matches Target::Display(d) ==> dims.0 == d.width && dims.1 == d.height,
        target is Window ==> dims.0 == 0 && dims.1 == 0,
{
    match target {
        Target::Window(_w) => (0, 0),
        Target::Display(d) => (d.width as u64, d.height as u64),
    }
}

/// How a window's `WM_NAME` property is encoded, as told by its type atom.
#[derive(Debug, Clone, Copy, PartialEq, Eq, Structural)]
pub enum NameEncoding {
    /// `STRING`, `UTF8_STRING` or `TEXT`.
    Text,
    /// `COMPOUND_TEXT`, which only Xlib can decode.
    Compound,
    /// Any other type.
    Other,
}

/// The outcome of choosing a window's title from its name properties.
#[derive(Debug)]
pub enum TitleChoice {
    /// The title.
    Title(String),
    /// The title is the `WM_NAME` property in compound text, to be decoded
    /// by Xlib.
    DecodeCompound,
    /// `_NET_WM_NAME` is set but is not UTF-8.
    Malformed,
}

/// The title used for a window whose name cannot be read.
pub open spec fn spec_untitled() -> Seq<char> {
    "n/a"@
}

/// `String::from_utf8`: the bytes as a string when they are valid UTF-8.
#[verifier::external_body]
fn string_from_utf8(bytes: Vec<u8>) -> (text: Option<String>)
    ensures
        text is Some <==> valid_utf8(bytes@),
        text matches Some(t) ==> t@ == decode_utf8(bytes@),
{
    String::from_utf8(bytes).ok()
}

/// Chooses a window's title: `_NET_WM_NAME` when the window has it (it must
/// be UTF-8); otherwise a non-empty `WM_NAME`, decoded according to its
/// encoding, with "n/a" for text that is not UTF-8; otherwise "n/a".
pub fn window_title(
    has_net_wm_name: bool,
    net_wm_name: Vec<u8>,
    wm_name: Vec<u8>,
    encoding: NameEncoding,
) -> (choice: TitleChoice)
    ensures
        has_net_wm_name && valid_utf8(net_wm_name@) ==> (choice matches TitleChoice::Title(t)
            && t@ == decode_utf8(net_wm_name@)),
        has_net_wm_name && !valid_utf8(net_wm_name@) ==> choice is Malformed,
        !has_net_wm_name && wm_name@.len() > 0 && encoding == NameEncoding::Compound
            ==> choice is DecodeCompound,
        !has_net_wm_name && wm_name@.len() > 0 && encoding != NameEncoding::Compound
            && valid_utf8(wm_name@) ==> (choice matches TitleChoice::Title(t) && t@ == decode_utf8(
            wm_name@,
        )),
        !has_net_wm_name && wm_name@.len() > 0 && encoding != NameEncoding::Compound
            && !valid_utf8(wm_name@) ==> (choice matches TitleChoice::Title(t) && t@
            == spec_untitled()),
        !has_net_wm_name && wm_name@.len() == 0 ==> (choice matches TitleChoice::Title(t) && t@
            == spec_untitled()),
{
    if has_net_wm_name {
        return match string_from_utf8(net_wm_name) {
            Some(t) => TitleChoice::Title(t),
            None => TitleChoice::Malformed,
        };
    }
    if wm_name.len() > 0 {
        if encoding == NameEncoding::Compound {
            return TitleChoice::DecodeCompound;
        }
        return match string_from_utf8(wm_name) {
            Some(t) => TitleChoice::Title(t),
            None => TitleChoice::Title(String::from_str("n/a")),
        };
    }
    TitleChoice::Title(String::from_str("n/a"))
}

/// The position and size of the CRTC that drives a connected output.
#[derive(Debug, Clone, Copy, PartialEq, Eq, Structural)]
pub struct CrtcGeometry {
    pub width: u16,
    pub height: u16,
    pub x_offset: i16,
    pub y_offset: i16,
}

/// What the X server reports of one RandR output of a screen.
#[derive(Debug, Clone)]
pub struct OutputRecord {
    /// The id of the output's CRTC.
    pub crtc: u32,
    /// The output's name, as the server sends it.
    pub name: Vec<u8>,
    /// The CRTC's geometry, present exactly when the output is connected.
    pub geometry: Option<CrtcGeometry>,
}

/// A display's title: its output name when that is UTF-8, else the fallback.
pub open spec fn spec_output_title(name: Seq<u8>, fallback: Seq<char>) -> Seq<char> {
    if valid_utf8(name) {
        decode_utf8(name)
    } else {
        fallback
    }
}

/// `d` is the display of the output with CRTC `crtc`, name `name` and
/// geometry `g` on the screen whose root window is `root`.
pub open spec fn is_output_display(
    d: Display,
    root: u32,
    crtc: u32,
    name: Seq<u8>,
    g: CrtcGeometry,
    fallback: Seq<char>,
) -> bool {
    &&& d.id == crtc
    &&& d.title@ == spec_output_title(name, fallback)
    &&& d.raw_handle == root
    &&& d.width == g.width
    &&& d.height == g.height
    &&& d.x_offset == g.x_offset
    &&& d.y_offset == g.y_offset
}

/// The display for an output: identified by its CRTC, titled by its name
/// (or `fallback` when the name is not UTF-8), sized and placed as its
/// CRTC, on the screen whose root window is `root`.
pub fn output_display(root: u32, crtc: u32, name: Vec<u8>, geometry: CrtcGeometry, fallback: &str) -> (d: Display)
    ensures
        is_output_display(d, root, crtc, name@, geometry, fallback@),
{
    let title = match string_from_utf8(name) {
        Some(t) => t,
        None => String::from_str(fallback),
    };
    Display {
        id: crtc,
        title,
        raw_handle: root,
        width: geometry.width,
        height: geometry.height,
        x_offset: geometry.x_offset,
        y_offset: geometry.y_offset,
    }
}

/// The connected outputs among `outputs`, in order.
pub open spec fn connected_outputs(outputs: Seq<OutputRecord>) -> Seq<OutputRecord>
    decreases outputs.len(),
{
    if outputs.len() == 0 {
        Seq::empty()
    } else {
        let rest = connected_outputs(outputs.drop_last());
        if outputs.last().geometry is Some {
            rest.push(outputs.last())
        } else {
            rest
        }
    }
}

/// Appends to `targets` a display for every connected output of a screen,
/// in the order the outputs are listed; outputs that are not connected are
/// left out. Output names that are not UTF-8 give the title "n/a".
pub fn push_connected_displays(targets: &mut Vec<Target>, root: u32, outputs: &Vec<OutputRecord>)
    ensures
        final(targets)@.len() == old(targets)@.len() + connected_outputs(outputs@).len(),
        forall|i: int| 0 <= i < old(targets)@.len() ==> final(targets)@[i] == old(targets)@[i],
        forall|j: int|
            0 <= j < connected_outputs(outputs@).len() ==> (#[trigger] final(targets)@[old(
                targets,
            )@.len() + j] matches Target::Display(d) && is_output_display(
                d,
                root,
                connected_outputs(outputs@)[j].crtc,
                connected_outputs(outputs@)[j].name@,
                connected_outputs(outputs@)[j].geometry->0,
                spec_untitled(),
            )),
{
    let ghost start = targets@;
    let mut i: usize = 0;
    while i < outputs.len()
        invariant
            i <= outputs@.len(),
            targets@.len() == start.len() + connected_outputs(outputs@.take(i as int)).len(),
            forall|k: int| 0 <= k < start.len() ==> targets@[k] == start[k],
            forall|j: int|
                0 <= j < connected_outputs(outputs@.take(i as int)).len() ==> (
                #[trigger] targets@[start.len() + j] matches Target::Display(d) && is_output_display(
                    d,
                    root,
                    connected_outputs(outputs@.take(i as int))[j].crtc,
                    connected_outputs(outputs@.take(i as int))[j].name@,
                    connected_outputs(outputs@.take(i as int))[j].geometry->0,
                    spec_untitled(),
                )),
        decreases outputs@.len() - i,
    {
        let ghost prev = connected_outputs(outputs@.take(i as int));
        assert(outputs@.take(i + 1).drop_last() =~= outputs@.take(i as int));
        assert(outputs@.take(i + 1).last() == outputs@[i as int]);
        let output = &outputs[i];
        match output.geometry {
            Some(geometry) => {
                let name = output.name.clone();
                assert(name@ =~= output.name@);
                let display = output_display(root, output.crtc, name, geometry, "n/a");
                let ghost before = targets@;
                targets.push(Target::Display(display));
                assert(connected_outputs(outputs@.take(i + 1)) == prev.push(outputs@[i as int]));
                assert forall|j: int|
                    0 <= j < connected_outputs(outputs@.take(i + 1)).len() implies (
                    #[trigger] targets@[start.len() + j] matches Target::Display(d)
                        && is_output_display(
                        d,
                        root,
                        connected_outputs(outputs@.take(i + 1))[j].crtc,
                        connected_outputs(outputs@.take(i + 1))[j].name@,
                        connected_outputs(outputs@.take(i + 1))[j].geometry->0,
                        spec_untitled(),
                    )) by {
                    if j < prev.len() {
                        assert(targets@[start.len() + j] == before[start.len() + j]);
                    }
                }
            },
            None => {
                assert(connected_outputs(outputs@.take(i + 1)) == prev);
            },
        }
        i = i + 1;
    }
    assert(outputs@.take(outputs@.len() as int) =~= outputs@);
}

} // verus!
