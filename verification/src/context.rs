//! The per-session context and the window handles it refers to.

use crate::numeral::{decimal, hex_address, push_decimal, push_hex_address};
use vstd::prelude::*;
use vstd::string::StringExecFns;

verus! {

/// The version that every context reports, a packed release number.
pub const VERSION: u32 = 0x0001_0000;

/// The host's callback for resolving named functions, held as its address;
/// `None` where the host gave none.
pub type LoaderFunction = Option<usize>;

/// The platform handles of one native window, each held as an address.
///
/// The host owns what the handles refer to. The graphics-API pair is zero
/// where the host does not provide it.
pub struct NativeWindow {
    pub display: usize,
    pub surface: usize,
    pub egl_display: usize,
    pub egl_window: usize,
}

/// Configuration of one host session.
///
/// The window is the host's: the context keeps only the address it was given
/// and never reads through it.
pub struct CompSurfContext {
    access_token: String,
    width: i32,
    height: i32,
    assets_path: String,
    cache_path: String,
    native_window: usize,
}

/// What a context holds, as plain values.
pub ghost struct ContextView {
    pub access_token: Seq<char>,
    pub width: int,
    pub height: int,
    pub assets_path: Seq<char>,
    pub cache_path: Seq<char>,
    pub native_window: nat,
}

impl View for CompSurfContext {
    type V = ContextView;

    closed spec fn view(&self) -> ContextView {
        ContextView {
            access_token: self.access_token@,
            width: self.width as int,
            height: self.height as int,
            assets_path: self.assets_path@,
            cache_path: self.cache_path@,
            native_window: self.native_window as nat,
        }
    }
}

/// One line of the dump that shows a number.
pub open spec fn number_line(label: Seq<char>, value: int) -> Seq<char> {
    label + decimal(value) + seq!['\n']
}

/// One line of the dump that shows a text between square brackets.
pub open spec fn text_line(label: Seq<char>, value: Seq<char>) -> Seq<char> {
    label + seq!['['] + value + seq![']', '\n']
}

/// One line of the dump that shows a handle.
pub open spec fn handle_line(label: Seq<char>, handle: usize) -> Seq<char> {
    label + hex_address(handle as nat) + seq!['\n']
}

/// The diagnostic dump of a context beside the handles of its window: nine
/// lines, each closed by a line feed.
pub open spec fn dump_text(ctx: ContextView, window: NativeWindow) -> Seq<char> {
    number_line("Width: "@, ctx.width)
        + number_line("Height: "@, ctx.height)
        + text_line("AssetsPath: "@, ctx.assets_path)
        + text_line("CachePath: "@, ctx.cache_path)
        + text_line("AccessToken: "@, ctx.access_token)
        + handle_line("Native Display: "@, window.display)
        + handle_line("Native Surface: "@, window.surface)
        + handle_line("Native EGL Display: "@, window.egl_display)
        + handle_line("Native EGL Window: "@, window.egl_window)
}

fn push_number_line(out: &mut String, label: &str, value: i32)
    ensures
        final(out)@ == old(out)@ + number_line(label@, value as int),
{
    out.append(label);
    push_decimal(out, value);
    out.push('\n');
    assert(out@ =~= old(out)@ + number_line(label@, value as int));
}

fn push_text_line(out: &mut String, label: &str, value: &str)
    ensures
        final(out)@ == old(out)@ + text_line(label@, value@),
{
    out.append(label);
    out.push('[');
    out.append(value);
    out.push(']');
    out.push('\n');
    assert(out@ =~= old(out)@ + text_line(label@, value@));
}

fn push_handle_line(out: &mut String, label: &str, handle: usize)
    ensures
        final(out)@ == old(out)@ + handle_line(label@, handle),
{
    out.append(label);
    push_hex_address(out, handle);
    out.push('\n');
    assert(out@ =~= old(out)@ + handle_line(label@, handle));
}

impl CompSurfContext {
    /// A context for the window at address `native`, with the given size,
    /// token and paths. Nothing is validated: any text is accepted.
    pub fn new(
        native: usize,
        width: i32,
        height: i32,
        access_token: String,
        assets_path: String,
        cache_path: String,
    ) -> (ctx: CompSurfContext)
        ensures
            ctx@ == (ContextView {
                access_token: access_token@,
                width: width as int,
                height: height as int,
                assets_path: assets_path@,
                cache_path: cache_path@,
                native_window: native as nat,
            }),
    {
        CompSurfContext { width, height, access_token, assets_path, cache_path, native_window: native }
    }

    /// The version of the context, the same for every session.
    pub fn version() -> (v: u32)
        ensures
            v == VERSION,
    {
        VERSION
    }

    /// The diagnostic dump: the size, the paths and the token of the context,
    /// then the four handles of `window`, which the caller has read from the
    /// host's window.
    pub fn dump(&self, window: &NativeWindow) -> (text: String)
        ensures
            text@ == dump_text(self@, *window),
    {
        let mut out = String::new();
        push_number_line(&mut out, "Width: ", self.width);
        push_number_line(&mut out, "Height: ", self.height);
        push_text_line(&mut out, "AssetsPath: ", self.assets_path.as_str());
        push_text_line(&mut out, "CachePath: ", self.cache_path.as_str());
        push_text_line(&mut out, "AccessToken: ", self.access_token.as_str());
        push_handle_line(&mut out, "Native Display: ", window.display);
        push_handle_line(&mut out, "Native Surface: ", window.surface);
        push_handle_line(&mut out, "Native EGL Display: ", window.egl_display);
        push_handle_line(&mut out, "Native EGL Window: ", window.egl_window);
        assert(out@ =~= dump_text(self@, *window));
        out
    }

    /// Extension point for resolving the host's functions through `loader`,
    /// the address of the host's resolver where it gave one. Does nothing.
    #[allow(unused_variables)]
    pub fn load_functions(&self, loader: LoaderFunction) {
    }

    /// Extension point for periodic work. Does nothing.
    pub fn run_task(&self) {
    }

    /// Extension point for drawing one frame. `time_bits` is the frame's
    /// timestamp, a 64-bit float carried as its bit pattern. Does nothing.
    #[allow(unused_variables)]
    pub fn draw_frame(&self, time_bits: u64) {
    }

    /// Takes the new size of the surface. Everything else stays as it is.
    pub fn resize(&mut self, width: i32, height: i32)
        ensures
            final(self)@ == (ContextView { width: width as int, height: height as int, ..old(self)@ }),
    {
        self.width = width;
        self.height = height;
    }

    /// The stored width.
    pub fn width(&self) -> (w: i32)
        ensures
            w == self@.width,
    {
        self.width
    }

    /// The stored height.
    pub fn height(&self) -> (h: i32)
        ensures
            h == self@.height,
    {
        self.height
    }

    /// The stored access token.
    pub fn access_token(&self) -> (s: &str)
        ensures
            s@ == self@.access_token,
    {
        self.access_token.as_str()
    }

    /// The stored path of the assets.
    pub fn assets_path(&self) -> (s: &str)
        ensures
            s@ == self@.assets_path,
    {
        self.assets_path.as_str()
    }

    /// The stored path of the cache.
    pub fn cache_path(&self) -> (s: &str)
        ensures
            s@ == self@.cache_path,
    {
        self.cache_path.as_str()
    }

    /// The address of the host's window, as given at construction.
    pub fn native_window(&self) -> (address: usize)
        ensures
            address == self@.native_window,
    {
        self.native_window
    }
}

} // verus!
