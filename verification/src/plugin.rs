//! The entry points that a host drives.
//!
//! A host refers to its session by a handle that may be empty. Every entry
//! point accepts an empty handle and then does nothing.

use crate::context::{CompSurfContext, ContextView, LoaderFunction, VERSION};
use crate::text::{decode_lossy, lossy_text};
use vstd::prelude::*;

verus! {

/// The version of the plugin, the same on every call.
pub fn comp_surf_version() -> (v: u32)
    ensures
        v == VERSION,
{
    CompSurfContext::version()
}

/// Hands the host's resolver to the context. The context stays as it is.
pub fn comp_surf_load_functions(ctx: Option<&mut CompSurfContext>, loader: LoaderFunction)
    ensures
        ctx matches Some(c) ==> *final(c) == *c,
{
    if let Some(context) = ctx {
        context.load_functions(loader);
    }
}

/// Opens a session for the window at address `native_window`.
///
/// The token and the two paths arrive as bytes and are decoded with
/// tolerance: valid UTF-8 is stored as the text it encodes, anything else
/// with replacement characters. The caller owns the context until it hands
/// it to [`comp_surf_de_initialize`].
pub fn comp_surf_initialize(
    access_token: &[u8],
    width: i32,
    height: i32,
    native_window: usize,
    assets_path: &[u8],
    cache_path: &[u8],
) -> (ctx: Box<CompSurfContext>)
    ensures
        ctx@ == (ContextView {
            access_token: lossy_text(access_token@),
            width: width as int,
            height: height as int,
            assets_path: lossy_text(assets_path@),
            cache_path: lossy_text(cache_path@),
            native_window: native_window as nat,
        }),
{
    let context = CompSurfContext::new(
        native_window,
        width,
        height,
        decode_lossy(access_token),
        decode_lossy(assets_path),
        decode_lossy(cache_path),
    );
    Box::new(context)
}

/// Closes a session: takes the context from the caller for good and drops it.
pub fn comp_surf_de_initialize(ctx: Option<Box<CompSurfContext>>) {
    match ctx {
        Some(context) => {
            let _reclaimed: Box<CompSurfContext> = context;
        },
        None => {},
    }
}

/// Lets the context do its periodic work. The context stays as it is.
pub fn comp_surf_run_task(ctx: Option<&mut CompSurfContext>)
    ensures
        ctx matches Some(c) ==> *final(c) == *c,
{
    if let Some(context) = ctx {
        context.run_task();
    }
}

/// Lets the context draw the frame of the given time, a 64-bit float carried
/// as its bit pattern. The context stays as it is.
pub fn comp_surf_draw_frame(ctx: Option<&mut CompSurfContext>, time_bits: u64)
    ensures
        ctx matches Some(c) ==> *final(c) == *c,
{
    if let Some(context) = ctx {
        context.draw_frame(time_bits);
    }
}

/// Tells the context the new size of its surface. Nothing else in it changes.
pub fn comp_surf_resize(ctx: Option<&mut CompSurfContext>, width: i32, height: i32)
    ensures
        ctx matches Some(c) ==> final(c)@ == (ContextView {
            width: width as int,
            height: height as int,
            ..c@
        }),
{
    if let Some(context) = ctx {
        context.resize(width, height);
    }
}

} // verus!
