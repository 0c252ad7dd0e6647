use vstd::prelude::*;

/// The Linux and FreeBSD capture engine.
pub mod linux;

/// Decisions of the macOS (ScreenCaptureKit) capture engine.
pub mod mac;

/// Decisions of the Windows (Graphics Capture) capture engine.
pub mod win;

verus! {

/// The size of the output frame: the captured size, limited to the size of
/// the requested resolution when there is one, and each side rounded down
/// to an even number of pixels.
pub open spec fn spec_fit_output_size(width: u32, height: u32, limit: Option<[u32; 2]>) -> [u32; 2] {
    let (w, h) = match limit {
        None => (width as int, height as int),
        Some(l) => (
            if l[0] < width { l[0] as int } else { width as int },
            if l[1] < height { l[1] as int } else { height as int },
        ),
    };
    [(w - w % 2) as u32, (h - h % 2) as u32]
}

/// Fits the captured size to the requested resolution: each side is the
/// smaller of the captured and the requested one, rounded down to even.
pub fn fit_output_size(width: u32, height: u32, limit: Option<[u32; 2]>) -> (size: [u32; 2])
    ensures
        size == spec_fit_output_size(width, height, limit),
        size[0] % 2 == 0 && size[1] % 2 == 0,
        size[0] <= width && size[1] <= height,
        limit matches Some(l) ==> size[0] <= l[0] && size[1] <= l[1],
        limit is None ==> size[0] == width - width % 2 && size[1] == height - height % 2,
        limit matches Some(l) ==> {
            let w = if l[0] < width { l[0] } else { width };
            let h = if l[1] < height { l[1] } else { height };
            size[0] == w - w % 2 && size[1] == h - h % 2
        },
{
    let mut output_width: u32 = width;
    let mut output_height: u32 = height;
    match limit {
        None => {},
        Some(l) => {
            if l[0] < output_width {
                output_width = l[0];
            }
            if l[1] < output_height {
                output_height = l[1];
            }
        },
    }
    output_width = output_width - output_width % 2;
    output_height = output_height - output_height % 2;
    [output_width, output_height]
}

/// Fitting is idempotent: a fitted size fits to itself, with or without
/// the same limit.
pub proof fn lemma_fit_output_size_idempotent(width: u32, height: u32, limit: Option<[u32; 2]>)
    ensures
        ({
            let size = spec_fit_output_size(width, height, limit);
            &&& spec_fit_output_size(size[0], size[1], None) == size
            &&& spec_fit_output_size(size[0], size[1], limit) == size
        }),
{
    let size = spec_fit_output_size(width, height, limit);
    assert(size[0] % 2 == 0 && size[1] % 2 == 0);
    assert(spec_fit_output_size(size[0], size[1], None) =~= size);
    assert(spec_fit_output_size(size[0], size[1], limit) =~= size);
}

/// Each side is fitted on its own: it is the smaller of the captured side
/// and the same side of the limit (the captured side alone without a
/// limit), rounded down to an even number; the width never depends on the
/// heights, nor the height on the widths.
pub proof fn lemma_fit_output_size_sides(width: u32, height: u32, limit: Option<[u32; 2]>)
    ensures
        limit is None ==> spec_fit_output_size(width, height, limit)[0] == width - width % 2
            && spec_fit_output_size(width, height, limit)[1] == height - height % 2,
        limit matches Some(l) ==> {
            let w = if l[0] < width { l[0] } else { width };
            let h = if l[1] < height { l[1] } else { height };
            &&& spec_fit_output_size(width, height, limit)[0] == w - w % 2
            &&& spec_fit_output_size(width, height, limit)[1] == h - h % 2
        },
{
}

} // verus!
