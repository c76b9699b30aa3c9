use vstd::prelude::*;
use crate::config::Config;
use crate::config::Protocol;
use crate::error::ViuError;
use crate::fit::find_best_fit;
use crate::fit::fit_spec;
use crate::iterm::full_output_seq;
use crate::iterm::iTermPrinter;
use crate::iterm::png_of;
use crate::iterm::Rendered;
use crate::probe::env_view;
use crate::probe::probed_iterm;
use crate::probe::Capabilities;
use crate::raster::color_code;
use crate::raster::RasterImage;

verus! {

/// Selection precedence: an explicit override always wins; else the first
/// protocol whose capability is reported; else the fallback.
pub open spec fn selected_protocol(override_p: Option<Protocol>, iterm_supported: bool) -> Protocol {
    match override_p {
        Some(p) => p,
        None => if iterm_supported {
            Protocol::Iterm
        } else {
            Protocol::Fallback
        },
    }
}

/// An explicit override selects its protocol whatever any capability probe
/// would report.
pub proof fn lemma_override_wins(p: Protocol, iterm_supported: bool)
    ensures
        selected_protocol(Some(p), iterm_supported) == p,
{
}

/// Picks the protocol for this render. With an override set the capability
/// cache is not consulted and stays as it was; otherwise the memoized probe
/// decides.
pub fn choose_protocol(
    config: &Config,
    caps: &mut Capabilities,
    term_program: &Option<Vec<u8>>,
) -> (p: Protocol)
    ensures
        p == selected_protocol(
            config.protocol,
            probed_iterm(old(caps).iterm, env_view(*term_program)),
        ),
        config.protocol is Some ==> *final(caps) == *old(caps),
        config.protocol is None ==> final(caps).iterm == Some(p == Protocol::Iterm),
{
    match config.protocol {
        Some(p) => p,
        None => {
            if caps.supports_iterm(term_program) {
                Protocol::Iterm
            } else {
                Protocol::Fallback
            }
        },
    }
}

/// The dispatcher: selects an encoder (override, else probed capability,
/// else fallback) and invokes it uniformly. The fallback encoder leaves the
/// image undisplayed and writes no bytes, but still reports the fitted cell
/// dimensions, so it never fails on unsupported-terminal grounds; every
/// encoder rejects degenerate native dimensions with InvalidImage.
pub fn render(
    img: &RasterImage,
    config: &Config,
    caps: &mut Capabilities,
    term_program: &Option<Vec<u8>>,
    term_cols: u32,
    term_rows: u32,
) -> (r: Result<Rendered, ViuError>)
    requires
        img.wf(),
        config.wf(),
        term_cols >= 1,
        term_rows >= 1,
    ensures
        ({
            let p = selected_protocol(
                config.protocol,
                probed_iterm(old(caps).iterm, env_view(*term_program)),
            );
            &&& r is Err <==> (img.width == 0 || img.height == 0)
            &&& r is Err ==> r->Err_0 == ViuError::InvalidImage
            &&& img.width >= 1 && img.height >= 1 ==> (r matches Ok(rr) && (
            rr.width as int,
            rr.height as int,
            ) == fit_spec(
                img.width as int,
                img.height as int,
                config.width,
                config.height,
                term_cols as int,
                term_rows as int,
            ) && if p == Protocol::Iterm {
                rr.bytes@ == full_output_seq(
                    png_of(img.data@, img.width as int, img.height as int, color_code(img.color)),
                    *config,
                )
            } else {
                rr.bytes@ == Seq::<u8>::empty()
            })
        }),
        config.protocol is Some ==> *final(caps) == *old(caps),
        config.protocol is None ==> final(caps).iterm == Some(
            probed_iterm(old(caps).iterm, env_view(*term_program)),
        ),
{
    let p = choose_protocol(config, caps, term_program);
    match p {
        Protocol::Iterm => {
            let printer = iTermPrinter {  };
            printer.print(img, config, term_cols, term_rows)
        },
        Protocol::Fallback => {
            let (w, h) = match find_best_fit(
                img.width,
                img.height,
                config.width,
                config.height,
                term_cols,
                term_rows,
            ) {
                Ok(d) => d,
                Err(e) => {
                    return Err(e);
                },
            };
            Ok(Rendered { bytes: Vec::new(), width: w, height: h })
        },
    }
}

} // verus!
