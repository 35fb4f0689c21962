//! Registration of the fonts and textures that a theme refers to, before the
//! context is built.
use vstd::prelude::*;

use crate::font::{font_data_parses, parse_font_data, FontSource};
use rusttype::Font as TtfFont;
use vstd::hash_map::StringHashMap;

verus! {

/// The errors of resource registration.
#[derive(Debug)]
pub enum Error {
    /// A theme could not be read or refers to something that does not exist.
    Theme(String),
    /// A font source could not be parsed.
    FontSource(String),
    /// The renderer could not take a resource.
    Renderer(String),
}

/// The view of an error: its variant and message.
pub enum ErrorView {
    Theme(Seq<char>),
    FontSource(Seq<char>),
    Renderer(Seq<char>),
}

impl View for Error {
    type V = ErrorView;

    open spec fn view(&self) -> ErrorView {
        match self {
            Error::Theme(m) => ErrorView::Theme(m@),
            Error::FontSource(m) => ErrorView::FontSource(m@),
            Error::Renderer(m) => ErrorView::Renderer(m@),
        }
    }
}

/// The message of a font source that does not parse.
pub open spec fn font_source_message(id: Seq<char>) -> Seq<char> {
    "Unable to parse '"@ + id + "' as ttf"@
}

/// Identifies a texture held by the renderer.
#[derive(Clone, Copy, Debug, PartialEq, Eq, Structural)]
pub struct TextureHandle {
    pub id: usize,
}

impl TextureHandle {
    /// The handle that follows this one.
    pub fn next(self) -> (h: TextureHandle)
        requires
            self.id < usize::MAX,
        ensures
            h.id == self.id + 1,
    {
        TextureHandle { id: self.id + 1 }
    }
}

impl Default for TextureHandle {
    fn default() -> (h: TextureHandle)
        ensures
            h.id == 0,
    {
        TextureHandle { id: 0 }
    }
}

/// What the renderer keeps of a registered texture: its handle and dimensions.
#[derive(Clone, Copy, Debug, PartialEq, Eq, Structural)]
pub struct TextureData {
    pub handle: TextureHandle,
    pub width: u32,
    pub height: u32,
}

/// One request to upload a texture: the handle, the RGBA bytes, the width and
/// height, and whether the renderer accepted it.
pub type Upload = (TextureHandle, Seq<u8>, u32, u32, bool);

/// The uploads a renderer has been asked for, in order.
pub type Uploads = Seq<Upload>;

/// A rendering backend, as far as resource registration needs one.
pub trait Renderer {
    /// The texture uploads this renderer has been asked for, in order.
    spec fn uploads(&self) -> Uploads;

    /// Uploads RGBA image data of the given dimensions under `handle`.  The request
    /// joins the renderer's uploads, with whether it was accepted.  A renderer that
    /// accepts the texture describes it by the handle it was given and the
    /// dimensions it was given; one that cannot take it reports an error.
    fn register_texture(&mut self, handle: TextureHandle, image_data: &[u8], dimensions: (
        u32,
        u32,
    )) -> (r: Result<TextureData, Error>)
        ensures
            final(self).uploads() == old(self).uploads().push(
                (handle, image_data@, dimensions.0, dimensions.1, r is Ok),
            ),
            r matches Ok(d) ==> d == (TextureData {
                handle,
                width: dimensions.0,
                height: dimensions.1,
            }),
    ;
}

/// The fonts and textures registered so far, and the handle the next texture gets.
pub struct ContextBuilder {
    font_sources: StringHashMap<FontSource>,
    textures: StringHashMap<TextureData>,
    next_texture_handle: TextureHandle,
}

impl ContextBuilder {
    /// The IDs of the registered font sources.
    pub closed spec fn font_ids(&self) -> Set<Seq<char>> {
        self.font_sources@.dom()
    }

    /// The registered font sources, by ID.
    pub closed spec fn sources(&self) -> Map<Seq<char>, FontSource> {
        self.font_sources@
    }

    /// The registered textures, by ID.
    pub closed spec fn textures(&self) -> Map<Seq<char>, TextureData> {
        self.textures@
    }

    /// The handle the next registered texture gets.
    pub closed spec fn next_handle(&self) -> TextureHandle {
        self.next_texture_handle
    }

    /// A builder with no fonts and no textures, whose first texture gets handle 0.
    pub fn new() -> (b: ContextBuilder)
        ensures
            b.font_ids() == Set::<Seq<char>>::empty(),
            b.sources() == Map::<Seq<char>, FontSource>::empty(),
            b.textures() == Map::<Seq<char>, TextureData>::empty(),
            b.next_handle().id == 0,
    {
        ContextBuilder {
            font_sources: StringHashMap::new(),
            textures: StringHashMap::new(),
            next_texture_handle: TextureHandle::default(),
        }
    }

    /// Registers the full binary of a TTF or OTF file under `id`, replacing any
    /// source registered under it before: parses it and records the outcome as
    /// [`record_font_source`](ContextBuilder::record_font_source) does.  Data that
    /// does not parse is refused with an error naming `id`, and changes nothing.
    pub fn register_font_source(&mut self, id: String, data: Vec<u8>) -> (r: Result<(), Error>)
        ensures
            r is Ok <==> font_data_parses(data@),
            r is Ok ==> final(self).font_ids() == old(self).font_ids().insert(id@),
            r is Ok ==> exists|source: FontSource|
                final(self).sources() == #[trigger] old(self).sources().insert(id@, source),
            r is Err ==> r->Err_0@ == ErrorView::FontSource(font_source_message(id@))
                && final(self).font_ids() == old(self).font_ids(),
            r is Err ==> final(self).sources() == old(self).sources(),
            final(self).textures() == old(self).textures(),
            final(self).next_handle() == old(self).next_handle(),
    {
        let parsed = parse_font_data(data);
        self.record_font_source(id, parsed)
    }

    /// Records the outcome of parsing a font source registered under `id`: a
    /// parsed font is kept under `id`, replacing any source kept there before and
    /// leaving the others; data that did not parse is refused with an error naming
    /// `id`, and changes nothing.
    pub fn record_font_source(&mut self, id: String, parsed: Option<TtfFont<'static>>) -> (r:
        Result<(), Error>)
        ensures
            match parsed {
                Some(font) => {
                    &&& r is Ok
                    &&& final(self).sources() == old(self).sources().insert(
                        id@,
                        FontSource { font },
                    )
                },
                None => {
                    &&& r is Err
                    &&& r->Err_0@ == ErrorView::FontSource(font_source_message(id@))
                    &&& final(self).sources() == old(self).sources()
                },
            },
            final(self).textures() == old(self).textures(),
            final(self).next_handle() == old(self).next_handle(),
    {
        match parsed {
            Some(font) => {
                self.font_sources.insert(id, FontSource { font });
                Ok(())
            },
            None => {
                let mut message = String::from_str("Unable to parse '");
                message.append(id.as_str());
                message.append("' as ttf");
                proof {
                    reveal_strlit("Unable to parse '");
                    reveal_strlit("' as ttf");
                }
                Err(Error::FontSource(message))
            },
        }
    }

    /// Records the outcome of registering a texture under `id` with the renderer:
    /// on success the texture is kept under `id`, replacing any kept before, and the
    /// next texture gets the following handle; a failure is handed back and changes
    /// nothing.
    pub fn record_texture(&mut self, id: String, registered: Result<TextureData, Error>) -> (r:
        Result<(), Error>)
        requires
            old(self).next_handle().id < usize::MAX,
        ensures
            match registered {
                Ok(data) => {
                    &&& r is Ok
                    &&& final(self).textures() == old(self).textures().insert(id@, data)
                    &&& final(self).next_handle().id == old(self).next_handle().id + 1
                    &&& final(self).sources() == old(self).sources()
                },
                Err(e) => {
                    &&& r is Err
                    &&& r->Err_0@ == e@
                    &&& final(self).textures() == old(self).textures()
                    &&& final(self).next_handle() == old(self).next_handle()
                    &&& final(self).sources() == old(self).sources()
                },
            },
    {
        match registered {
            Ok(data) => {
                self.textures.insert(id, data);
                self.next_texture_handle = self.next_texture_handle.next();
                Ok(())
            },
            Err(e) => Err(e),
        }
    }

    /// Registers RGBA image data of the given dimensions under `id`: hands it to the
    /// renderer under the next texture handle and records the outcome as
    /// [`record_texture`](ContextBuilder::record_texture) does.  The renderer is
    /// asked exactly once, for that handle, the data and the dimensions.  On success the
    /// texture is kept under `id` with that handle and the given dimensions, and the
    /// next texture gets the following handle; a failure of the renderer is handed
    /// back and changes nothing.
    pub fn register_texture<R: Renderer>(
        &mut self,
        renderer: &mut R,
        id: String,
        data: &[u8],
        dimensions: (u32, u32),
    ) -> (r: Result<(), Error>)
        requires
            old(self).next_handle().id < usize::MAX,
        ensures
            r is Ok ==> final(self).textures() == old(self).textures().insert(
                id@,
                TextureData {
                    handle: old(self).next_handle(),
                    width: dimensions.0,
                    height: dimensions.1,
                },
            ),
            r is Ok ==> final(self).next_handle().id == old(self).next_handle().id + 1,
            r is Err ==> final(self).textures() == old(self).textures(),
            r is Err ==> final(self).next_handle() == old(self).next_handle(),
            final(self).sources() == old(self).sources(),
            final(renderer).uploads() == old(renderer).uploads().push(
                (old(self).next_handle(), data@, dimensions.0, dimensions.1, r is Ok),
            ),
    {
        let handle = self.next_texture_handle;
        let registered = renderer.register_texture(handle, data, dimensions);
        self.record_texture(id, registered)
    }

    /// Hands over the registered font sources and textures, for building the themes.
    pub fn into_resources(self) -> (r: (StringHashMap<FontSource>, StringHashMap<TextureData>))
        ensures
            r.0@ == self.sources(),
            r.1@ == self.textures(),
    {
        (self.font_sources, self.textures)
    }
}

} // verus!
