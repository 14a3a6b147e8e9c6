use vstd::prelude::*;

use crate::color::{all_hex_colors, colors_of_hex, parse_colors, views_of, Rgba};
use crate::encode::{png_bytes, png_encode, png_encode_ok, qr_encode, qr_encode_message, qr_encode_ok, qr_grid};
use crate::errors::QrError;
use crate::filters::{flat_colored, make_transparent, transparentized};
use crate::grid::PixelGrid;
use crate::logo::{add_logo, logo_fits, with_logo};
use crate::palette::{add_gradient, frame_colors, gradient_recolored, gradient_samples, still_gradient_stops};

verus! {

/// The styling requested for one QR code.
#[derive(Clone, Debug)]
pub struct Options {
    pub add_logo: bool,
    pub add_gradient: bool,
    pub add_transparency: Option<bool>,
    pub animation: Option<AnimationOptions>,
}

/// An animated request: how many frames, and the color stops the frames
/// interpolate across.
#[derive(Clone, Debug)]
pub struct AnimationOptions {
    pub frames: u8,
    pub colors: Vec<String>,
}

/// The outcome of one request: a single encoded image, an ordered frame
/// sequence, or an error — never a partial result.
#[derive(Debug)]
pub enum QrResult {
    Image(Vec<u8>),
    Images(Vec<Vec<u8>>),
    Failure(QrError),
}

/// The bitmap after the optional transparency pass: what the logo
/// compositor would measure modules on.
pub open spec fn pre_logo(qr: Seq<Rgba>, transparency: bool) -> Seq<Rgba> {
    if transparency {
        transparentized(qr)
    } else {
        qr
    }
}

/// The still-image pipeline over a rendered QR bitmap, in its fixed order:
/// transparency first, then the centered logo over the possibly transparent
/// background, then the gradient recolor last so the logo cannot overwrite
/// it.
pub open spec fn styled_single(
    qr: Seq<Rgba>,
    size: nat,
    transparency: bool,
    logo_on: bool,
    gradient_on: bool,
    logo_bytes: Seq<u8>,
) -> Seq<Rgba> {
    let after_transparency = pre_logo(qr, transparency);
    let after_logo = if logo_on {
        with_logo(after_transparency, size, logo_bytes)
    } else {
        after_transparency
    };
    if gradient_on {
        gradient_recolored(
            after_logo,
            size,
            gradient_samples(still_gradient_stops(), size + 1),
        )
    } else {
        after_logo
    }
}

/// One animation frame over a rendered QR bitmap: transparency and logo as
/// in the still pipeline, then a flat recolor of the black modules with the
/// frame's sampled color instead of the spatial gradient.
pub open spec fn styled_frame(
    qr: Seq<Rgba>,
    size: nat,
    transparency: bool,
    logo_on: bool,
    logo_bytes: Seq<u8>,
    color: Rgba,
) -> Seq<Rgba> {
    let after_transparency = pre_logo(qr, transparency);
    let after_logo = if logo_on {
        with_logo(after_transparency, size, logo_bytes)
    } else {
        after_transparency
    };
    flat_colored(after_logo, color)
}

/// When the still pipeline succeeds: the encoder accepts the text at this
/// size, the logo decodes if one was requested, and the codec accepts the
/// styled buffer.  Every part is a function of the arguments alone.
pub open spec fn still_ok(
    input: Seq<char>,
    size: nat,
    transparency: bool,
    logo_on: bool,
    gradient_on: bool,
    logo_bytes: Seq<u8>,
) -> bool {
    &&& qr_encode_ok(input, size)
    &&& (logo_on ==> logo_fits(pre_logo(qr_grid(input, size), transparency), size, logo_bytes))
    &&& png_encode_ok(
        styled_single(qr_grid(input, size), size, transparency, logo_on, gradient_on, logo_bytes),
        size,
    )
}

/// Which error the still pipeline reports: the encoder's refusal carrying
/// its own message, then the logo asset, then the codec, each exactly.
pub open spec fn still_error(
    e: QrError,
    input: Seq<char>,
    size: nat,
    transparency: bool,
    logo_on: bool,
    gradient_on: bool,
    logo_bytes: Seq<u8>,
) -> bool {
    let enc = qr_encode_ok(input, size);
    let logo_good = logo_on ==> logo_fits(
        pre_logo(qr_grid(input, size), transparency),
        size,
        logo_bytes,
    );
    &&& ((e matches QrError::Encode(_)) <==> !enc)
    &&& (e matches QrError::Encode(m) ==> m@ == qr_encode_message(input, size))
    &&& (e == QrError::AssetDecode <==> (enc && !logo_good))
    &&& (e == QrError::Codec <==> (enc && logo_good && !still_ok(
        input,
        size,
        transparency,
        logo_on,
        gradient_on,
        logo_bytes,
    )))
}

/// Generates one styled QR code image in PNG format for the input text, at
/// `image_size` pixels an edge.
///
/// Succeeds exactly when the encoder accepts the text, the logo decodes if
/// requested, and the codec accepts the styled buffer; the bytes are then
/// exactly the PNG encoding of the rendered QR bitmap run through the
/// requested filters in their fixed order.  Each failure reports its own
/// error: the encoder's refusal with its message, the logo asset, or the
/// codec, exactly; nothing else.
pub fn generate(input: &str, options: &Options, logo: &[u8], image_size: usize) -> (r: Result<
    Vec<u8>,
    QrError,
>)
    ensures
        r is Ok <==> still_ok(
            input@,
            image_size as nat,
            options.add_transparency == Some(true),
            options.add_logo,
            options.add_gradient,
            logo@,
        ),
        r matches Ok(b) ==> b@ == png_bytes(
            styled_single(
                qr_grid(input@, image_size as nat),
                image_size as nat,
                options.add_transparency == Some(true),
                options.add_logo,
                options.add_gradient,
                logo@,
            ),
            image_size as nat,
        ),
        r matches Err(e) ==> still_error(
            e,
            input@,
            image_size as nat,
            options.add_transparency == Some(true),
            options.add_logo,
            options.add_gradient,
            logo@,
        ),
{
    let pixels = match qr_encode(input, image_size) {
        Ok(v) => v,
        Err(m) => { return Err(QrError::Encode(m)); },
    };
    let mut qr = PixelGrid::from_pixels(pixels, image_size);

    let transparency = match options.add_transparency {
        Some(true) => true,
        _ => false,
    };
    if transparency {
        make_transparent(&mut qr);
    }
    if options.add_logo {
        match add_logo(&mut qr, logo) {
            Ok(()) => {},
            Err(e) => { return Err(e); },
        }
    }
    if options.add_gradient {
        add_gradient(&mut qr);
    }

    match png_encode(qr.pixels(), image_size) {
        Some(b) => Ok(b),
        None => Err(QrError::Codec),
    }
}

/// When the animated pipeline succeeds: an admissible frame count,
/// parsable colors, an encoder that accepts the text, a logo that decodes
/// if one was requested, and a codec that accepts every styled frame.
pub open spec fn animated_ok(
    input: Seq<char>,
    size: nat,
    transparency: bool,
    logo_on: bool,
    logo_bytes: Seq<u8>,
    animation: AnimationOptions,
) -> bool {
    let stops = colors_of_hex(views_of(animation.colors@));
    let palette = gradient_samples(stops, animation.frames as nat);
    &&& animation.frames >= 2
    &&& all_hex_colors(views_of(animation.colors@))
    &&& qr_encode_ok(input, size)
    &&& (logo_on ==> logo_fits(pre_logo(qr_grid(input, size), transparency), size, logo_bytes))
    &&& forall|f: int|
        0 <= f < animation.frames ==> png_encode_ok(
            #[trigger] styled_frame(
                qr_grid(input, size),
                size,
                transparency,
                logo_on,
                logo_bytes,
                palette[f],
            ),
            size,
        )
}

/// Which error the animated pipeline reports: the degenerate frame count,
/// then the color format, then the encoder's refusal with its message, then
/// the logo asset, then the codec, each exactly.
pub open spec fn animated_error(
    e: QrError,
    input: Seq<char>,
    size: nat,
    transparency: bool,
    logo_on: bool,
    logo_bytes: Seq<u8>,
    animation: AnimationOptions,
) -> bool {
    let degenerate = animation.frames <= 1;
    let colors_ok = all_hex_colors(views_of(animation.colors@));
    let enc = qr_encode_ok(input, size);
    let logo_good = logo_on ==> logo_fits(
        pre_logo(qr_grid(input, size), transparency),
        size,
        logo_bytes,
    );
    &&& (e == QrError::DegenerateInput <==> degenerate)
    &&& (e == QrError::ColorFormat <==> (!degenerate && !colors_ok))
    &&& ((e matches QrError::Encode(_)) <==> (!degenerate && colors_ok && !enc))
    &&& (e matches QrError::Encode(m) ==> m@ == qr_encode_message(input, size))
    &&& (e == QrError::AssetDecode <==> (!degenerate && colors_ok && enc && !logo_good))
    &&& (e == QrError::Codec <==> (!degenerate && colors_ok && enc && logo_good && !animated_ok(
        input,
        size,
        transparency,
        logo_on,
        logo_bytes,
        animation,
    )))
}

/// Generates the frame sequence of an animated QR code: one independent
/// render of the text per frame, styled like the still image but recolored
/// with the frame's flat color, sampled from the gradient through the
/// parsed color stops at `frame / (frame_count - 1)`.
///
/// On success there are exactly `frames` PNG images, frame `f` being the
/// PNG encoding of its styled bitmap.  A frame count below two is a
/// `DegenerateInput` error and a color entry that is not `#RRGGBB` a
/// `ColorFormat` error, each exactly; the remaining errors are the still
/// pipeline's.  No partial sequence is ever returned.
pub fn generate_animated(
    input: &str,
    options: &Options,
    logo: &[u8],
    image_size: usize,
    animation: &AnimationOptions,
) -> (r: Result<Vec<Vec<u8>>, QrError>)
    ensures
        r matches Ok(frames) ==> {
            let stops = colors_of_hex(views_of(animation.colors@));
            let palette = gradient_samples(stops, animation.frames as nat);
            &&& animation.frames >= 2
            &&& all_hex_colors(views_of(animation.colors@))
            &&& frames@.len() == animation.frames
            &&& forall|f: int|
                0 <= f < frames@.len() ==> (#[trigger] frames@[f])@ == png_bytes(
                    styled_frame(
                        qr_grid(input@, image_size as nat),
                        image_size as nat,
                        options.add_transparency == Some(true),
                        options.add_logo,
                        logo@,
                        palette[f],
                    ),
                    image_size as nat,
                )
            // The first frame takes the first color stop exactly and the last
            // frame the last stop; with two stops every channel moves
            // monotonically between them across the frames.
            &&& stops.len() >= 1 ==> palette[0] == stops[0] && palette[animation.frames - 1]
                == stops.last()
            &&& stops.len() == 2 ==> crate::palette::monotone_between(palette, stops[0], stops[1])
        },
        r is Ok <==> animated_ok(
            input@,
            image_size as nat,
            options.add_transparency == Some(true),
            options.add_logo,
            logo@,
            *animation,
        ),
        r matches Err(e) ==> animated_error(
            e,
            input@,
            image_size as nat,
            options.add_transparency == Some(true),
            options.add_logo,
            logo@,
            *animation,
        ),
{
    if animation.frames <= 1 {
        return Err(QrError::DegenerateInput);
    }
    let stops = match parse_colors(&animation.colors) {
        Ok(v) => v,
        Err(_) => { return Err(QrError::ColorFormat); },
    };
    let count = animation.frames as usize;
    let palette = frame_colors(&stops, count);

    let mut frames: Vec<Vec<u8>> = Vec::new();
    let transparency = match options.add_transparency {
        Some(true) => true,
        _ => false,
    };
    let ghost samples = gradient_samples(
        colors_of_hex(views_of(animation.colors@)),
        animation.frames as nat,
    );
    for f in 0..count
        invariant
            count == animation.frames,
            animation.frames >= 2,
            all_hex_colors(views_of(animation.colors@)),
            palette@ == samples,
            samples == gradient_samples(
                colors_of_hex(views_of(animation.colors@)),
                animation.frames as nat,
            ),
            palette@.len() == count,
            transparency == (options.add_transparency == Some(true)),
            f > 0 ==> qr_encode_ok(input@, image_size as nat),
            f > 0 ==> (options.add_logo ==> logo_fits(
                pre_logo(qr_grid(input@, image_size as nat), transparency),
                image_size as nat,
                logo@,
            )),
            forall|t: int|
                0 <= t < f ==> png_encode_ok(
                    #[trigger] styled_frame(
                        qr_grid(input@, image_size as nat),
                        image_size as nat,
                        transparency,
                        options.add_logo,
                        logo@,
                        samples[t],
                    ),
                    image_size as nat,
                ),
            frames@.len() == f,
            forall|t: int|
                0 <= t < f ==> (#[trigger] frames@[t])@ == png_bytes(
                    styled_frame(
                        qr_grid(input@, image_size as nat),
                        image_size as nat,
                        options.add_transparency == Some(true),
                        options.add_logo,
                        logo@,
                        samples[t],
                    ),
                    image_size as nat,
                ),
    {
        let pixels = match qr_encode(input, image_size) {
            Ok(v) => v,
            Err(m) => { return Err(QrError::Encode(m)); },
        };
        let mut qr = PixelGrid::from_pixels(pixels, image_size);
        if transparency {
            make_transparent(&mut qr);
        }
        if options.add_logo {
            match add_logo(&mut qr, logo) {
                Ok(()) => {},
                Err(e) => { return Err(e); },
            }
        }
        crate::filters::apply_color(&mut qr, palette[f]);
        match png_encode(qr.pixels(), image_size) {
            Some(b) => { frames.push(b); },
            None => {
                proof {
                    let transp = options.add_transparency == Some(true);
                    assert(!png_encode_ok(
                        styled_frame(
                            qr_grid(input@, image_size as nat),
                            image_size as nat,
                            transp,
                            options.add_logo,
                            logo@,
                            gradient_samples(
                                colors_of_hex(views_of(animation.colors@)),
                                animation.frames as nat,
                            )[f as int],
                        ),
                        image_size as nat,
                    ));
                    assert(!animated_ok(
                        input@,
                        image_size as nat,
                        transp,
                        options.add_logo,
                        logo@,
                        *animation,
                    ));
                }
                return Err(QrError::Codec);
            },
        }
    }
    Ok(frames)
}

/// The logo variant a request uses: the transparent-background asset when
/// transparency is requested, the white-background asset otherwise.
pub open spec fn selected_logo(
    transparency: bool,
    logo_transparent: Seq<u8>,
    logo_white: Seq<u8>,
) -> Seq<u8> {
    if transparency {
        logo_transparent
    } else {
        logo_white
    }
}

/// One whole request: picks the logo variant for the transparency mode,
/// then renders either the single styled image or, when animation options
/// are present, the full frame sequence, wrapping any error.  The outcome
/// is an `Image` or `Images` exactly when the dispatched pipeline succeeds;
/// otherwise a `Failure` carrying that pipeline's error, exactly.
pub fn render(
    input: &str,
    options: &Options,
    logo_transparent: &[u8],
    logo_white: &[u8],
    image_size: usize,
) -> (r: QrResult)
    ensures
        r is Images ==> options.animation is Some,
        r is Image ==> options.animation is None,
        options.animation is None ==> (r is Image <==> still_ok(
            input@,
            image_size as nat,
            options.add_transparency == Some(true),
            options.add_logo,
            options.add_gradient,
            selected_logo(options.add_transparency == Some(true), logo_transparent@, logo_white@),
        )),
        options.animation is None ==> (r matches QrResult::Failure(e) ==> still_error(
            e,
            input@,
            image_size as nat,
            options.add_transparency == Some(true),
            options.add_logo,
            options.add_gradient,
            selected_logo(options.add_transparency == Some(true), logo_transparent@, logo_white@),
        )),
        options.animation matches Some(animation) ==> (r is Images <==> animated_ok(
            input@,
            image_size as nat,
            options.add_transparency == Some(true),
            options.add_logo,
            selected_logo(options.add_transparency == Some(true), logo_transparent@, logo_white@),
            animation,
        )),
        options.animation matches Some(animation) ==> (r matches QrResult::Failure(e)
            ==> animated_error(
            e,
            input@,
            image_size as nat,
            options.add_transparency == Some(true),
            options.add_logo,
            selected_logo(options.add_transparency == Some(true), logo_transparent@, logo_white@),
            animation,
        )),
        r matches QrResult::Image(b) ==> b@ == png_bytes(
            styled_single(
                qr_grid(input@, image_size as nat),
                image_size as nat,
                options.add_transparency == Some(true),
                options.add_logo,
                options.add_gradient,
                selected_logo(
                    options.add_transparency == Some(true),
                    logo_transparent@,
                    logo_white@,
                ),
            ),
            image_size as nat,
        ),
        r matches QrResult::Images(frames) ==> {
            let animation = options.animation.unwrap();
            &&& animation.frames >= 2
            &&& frames@.len() == animation.frames
            &&& forall|f: int|
                0 <= f < frames@.len() ==> (#[trigger] frames@[f])@ == png_bytes(
                    styled_frame(
                        qr_grid(input@, image_size as nat),
                        image_size as nat,
                        options.add_transparency == Some(true),
                        options.add_logo,
                        selected_logo(
                            options.add_transparency == Some(true),
                            logo_transparent@,
                            logo_white@,
                        ),
                        gradient_samples(
                            colors_of_hex(views_of(animation.colors@)),
                            animation.frames as nat,
                        )[f],
                    ),
                    image_size as nat,
                )
        },
{
    let transparency = match options.add_transparency {
        Some(true) => true,
        _ => false,
    };
    let logo: &[u8] = if transparency {
        logo_transparent
    } else {
        logo_white
    };
    match &options.animation {
        Some(animation) => {
            match generate_animated(input, options, logo, image_size, animation) {
                Ok(frames) => QrResult::Images(frames),
                Err(e) => QrResult::Failure(e),
            }
        },
        None => {
            match generate(input, options, logo, image_size) {
                Ok(image) => QrResult::Image(image),
                Err(e) => QrResult::Failure(e),
            }
        },
    }
}

} // verus!

