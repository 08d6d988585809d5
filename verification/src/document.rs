//! The document: root owner of pages, fonts, encoders, outlines,
//! images and document-wide settings.
//!
//! The document records every resource registered with it and every
//! setting chosen, after validating what the engine could not accept:
//! strings with embedded null bytes and numbers that do not fit the
//! engine's integer width are rejected before anything is recorded.

use crate::destination::{Destination, DestinationFit};
use crate::encoder::Encoder;
use crate::error::Error;
use crate::font::Font;
use crate::image::Image;
use crate::ops::{contains_nul, has_nul};
use crate::outline::Outline;
use crate::page::Page;
use vstd::prelude::*;
use vstd::string::StringSliceAdditionalSpecFns;

verus! {

/// How the pages of the document are laid out by a viewer.
#[derive(Clone, Copy, Debug, PartialEq, Eq, Structural)]
pub enum PageLayout {
    /// Only one page is displayed.
    Single,
    /// The pages are displayed in one column.
    OneColumn,
    /// Two columns; odd-numbered pages on the left.
    TwoColumnLeft,
    /// Two columns; odd-numbered pages on the right.
    TwoColumnRight,
    /// Two pages side by side; odd-numbered pages on the left.
    TwoPageLeft,
    /// Two pages side by side; odd-numbered pages on the right.
    TwoPageRight,
}

/// What a viewer shows beside the document.
#[derive(Clone, Copy, Debug, PartialEq, Eq, Structural)]
pub enum PageMode {
    /// Neither outline nor thumbnails.
    UseNone,
    /// The outline pane.
    UseOutline,
    /// The thumbnail pane.
    UseThumbs,
    /// Full-screen mode.
    FullScreen,
}

/// The color space of a raw image.
#[derive(Clone, Copy, Debug, PartialEq, Eq, Structural)]
pub enum ColorSpace {
    /// One gray channel.
    DeviceGray,
    /// Red, green and blue channels.
    DeviceRgb,
    /// Cyan, magenta, yellow and keyplate channels.
    DeviceCmyk,
    /// Calibrated gray.
    CalGray,
    /// Calibrated RGB.
    CalRgb,
    /// CIE L*a*b*.
    Lab,
    /// An ICC profile.
    IccBased,
    /// A separation color space.
    Separation,
    /// A DeviceN color space.
    DeviceN,
    /// An indexed palette.
    Indexed,
    /// A pattern.
    Pattern,
}

/// The document information fields.
#[derive(Clone, Copy, Debug, PartialEq, Eq, Structural)]
pub enum InfoType {
    /// When the document was created.
    CreationDate,
    /// When the document was last modified.
    ModifiedDate,
    /// Who wrote the document.
    Author,
    /// What produced the document's content.
    Creator,
    /// What produced the file.
    Producer,
    /// The document's title.
    Title,
    /// The document's subject.
    Subject,
    /// Keywords for the document.
    Keywords,
    /// Whether the document has been trapped.
    Trapped,
    /// PDF/X conformance.
    GtsPdfx,
}

/// The encryption revision.
#[derive(Clone, Copy, Debug, PartialEq, Eq, Structural)]
pub enum EncryptMode {
    /// Revision 2: 40-bit keys.
    Rev2,
    /// Revision 3: keys of a chosen length.
    Rev3,
}

/// Which kinds of content are compressed in the produced file.
#[derive(Clone, Copy, Debug, PartialEq, Eq, Structural)]
pub enum CompressionMode {
    /// Nothing is compressed.
    Uncompressed,
    /// Page content streams.
    Text,
    /// Image streams.
    Image,
    /// Other streams: fonts, character maps and the like.
    Metadata,
    /// Every stream.
    All,
}

impl CompressionMode {
    /// The engine's flag word for this mode.
    pub open spec fn spec_bits(self) -> u32 {
        match self {
            CompressionMode::Uncompressed => 0u32,
            CompressionMode::Text => 1u32,
            CompressionMode::Image => 2u32,
            CompressionMode::Metadata => 4u32,
            CompressionMode::All => 7u32,
        }
    }

    /// The engine's flag word for this mode.  `All` is exactly the
    /// union of the `Text`, `Image` and `Metadata` flags.
    pub fn bits(self) -> (r: u32)
        ensures
            r == self.spec_bits(),
            self is All ==> r == CompressionMode::Text.spec_bits() | CompressionMode::Image.spec_bits()
                | CompressionMode::Metadata.spec_bits(),
    {
        proof {
            assert(1u32 | 2u32 | 4u32 == 7u32) by (bit_vector);
        }
        match self {
            CompressionMode::Uncompressed => 0,
            CompressionMode::Text => 1,
            CompressionMode::Image => 2,
            CompressionMode::Metadata => 4,
            CompressionMode::All => 7,
        }
    }
}

/// The style page labels are numbered in.
#[derive(Clone, Copy, Debug, PartialEq, Eq, Structural)]
pub enum PageNumStyle {
    /// Arabic numerals.
    Decimal,
    /// Uppercase roman numerals.
    UpperRoman,
    /// Lowercase roman numerals.
    LowerRoman,
    /// Uppercase letters.
    UpperLetters,
    /// Lowercase letters.
    LowerLetters,
}

/// Where a registered font comes from.
#[derive(Debug, PartialEq)]
pub enum FontSource {
    /// A font the engine knows by name.
    Named(Vec<u8>),
    /// A TrueType font file: its path, and whether to embed it.
    TtfFile(Vec<u8>, bool),
    /// A Type 1 font: the AFM file path and the font file path.
    Type1File(Vec<u8>, Vec<u8>),
}

/// A font registered with the document: where it comes from and, when
/// one was given, its encoding, all null-free.
#[derive(Debug, PartialEq)]
pub struct FontRecord {
    /// Where the font comes from.
    pub source: FontSource,
    /// The encoding name, when one was given.
    pub encoding: Option<Vec<u8>>,
}

/// An outline entry: its title and its parent, when it has one.
#[derive(Debug, PartialEq)]
pub struct OutlineRecord {
    /// The title shown in the outline pane.
    pub title: Vec<u8>,
    /// Index of the parent entry, when this is not a root entry.
    pub parent: Option<usize>,
    /// Index of the encoder the title is encoded with, when one was
    /// given.
    pub encoder: Option<usize>,
}

/// A page-labeling range.
#[derive(Debug, PartialEq)]
pub struct PageLabelRecord {
    /// The first page the range applies to.
    pub page_num: u32,
    /// How the labels are numbered.
    pub style: PageNumStyle,
    /// The number of the range's first page.
    pub first_page: u32,
    /// Text put before the number.
    pub prefix: Vec<u8>,
}

/// An image registered with the document.
#[derive(Debug, PartialEq)]
pub enum ImageRecord {
    /// A PNG file, by path.
    PngFile(Vec<u8>),
    /// A JPEG file, by path.
    JpegFile(Vec<u8>),
    /// Raw samples in a file: path, width, height, color space.
    RawFile(Vec<u8>, u32, u32, ColorSpace),
    /// Raw samples in memory: data, width, height, color space, bits
    /// per component.
    RawMem(Vec<u8>, u32, u32, ColorSpace, u32),
}

/// The owner and user passwords.
#[derive(Debug, PartialEq)]
pub struct PasswordRecord {
    /// The owner password.
    pub owner: Vec<u8>,
    /// The user password.
    pub user: Vec<u8>,
}

/// One document information entry.
#[derive(Debug, PartialEq)]
pub struct InfoRecord {
    /// Which field was set.
    pub kind: InfoType,
    /// Its value.
    pub value: Vec<u8>,
}

/// Which optional font and encoding sets have been enabled.
#[derive(Clone, Copy, Debug, PartialEq, Eq, Structural, Default)]
pub struct EncodingSupport {
    /// Japanese fonts.
    pub jp_fonts: bool,
    /// Korean fonts.
    pub kr_fonts: bool,
    /// Simplified Chinese fonts.
    pub cns_fonts: bool,
    /// Traditional Chinese fonts.
    pub cnt_fonts: bool,
    /// Japanese encodings.
    pub jp_encodings: bool,
    /// Korean encodings.
    pub kr_encodings: bool,
    /// Simplified Chinese encodings.
    pub cns_encodings: bool,
    /// Traditional Chinese encodings.
    pub cnt_encodings: bool,
    /// UTF-8 encodings.
    pub utf_encodings: bool,
}

/// Everything a document has recorded, as one value for contracts to
/// speak about.
pub ghost struct DocModel {
    /// The pages, in document order.  Each entry is the index the page
    /// was created with, so a later insertion stands where it was
    /// placed.
    pub pages: Seq<usize>,
    /// The registered fonts, in registration order.
    pub fonts: Seq<FontRecord>,
    /// The registered encoder names, in registration order.
    pub encoders: Seq<Vec<u8>>,
    /// The encoder selected as current, when one was.
    pub current_encoder: Option<usize>,
    /// The outline entries, in creation order.
    pub outlines: Seq<OutlineRecord>,
    /// The page-labeling ranges, in creation order.
    pub labels: Seq<PageLabelRecord>,
    /// The registered images, in registration order.
    pub images: Seq<ImageRecord>,
    /// The compression mode.
    pub compression: CompressionMode,
    /// The page layout shown by viewers.
    pub layout: PageLayout,
    /// The page mode shown by viewers.
    pub mode: PageMode,
    /// The encryption mode and key length, when encryption was set.
    pub encryption: Option<(EncryptMode, u32)>,
    /// The passwords, when they were set.
    pub password: Option<PasswordRecord>,
    /// The information entries, in the order they were set.
    pub info: Seq<InfoRecord>,
    /// Which optional font and encoding sets are enabled.
    pub support: EncodingSupport,
    /// The destination shown when the document opens, when one was
    /// set: the owning page's index and the fit.
    pub welcome: Option<(usize, DestinationFit)>,
}

/// A PDF document under construction.
pub struct Document {
    page_ids: Vec<usize>,
    fonts: Vec<FontRecord>,
    encoders: Vec<Vec<u8>>,
    current_encoder: Option<usize>,
    outlines: Vec<OutlineRecord>,
    labels: Vec<PageLabelRecord>,
    images: Vec<ImageRecord>,
    compression: CompressionMode,
    layout: PageLayout,
    mode: PageMode,
    encryption: Option<(EncryptMode, u32)>,
    password: Option<PasswordRecord>,
    info: Vec<InfoRecord>,
    support: EncodingSupport,
    welcome: Option<(usize, DestinationFit)>,
}

impl View for Document {
    type V = DocModel;

    closed spec fn view(&self) -> DocModel {
        DocModel {
            pages: self.page_ids@,
            fonts: self.fonts@,
            encoders: self.encoders@,
            current_encoder: self.current_encoder,
            outlines: self.outlines@,
            labels: self.labels@,
            images: self.images@,
            compression: self.compression,
            layout: self.layout,
            mode: self.mode,
            encryption: self.encryption,
            password: self.password,
            info: self.info@,
            support: self.support,
            welcome: self.welcome,
        }
    }
}

/// The value of the last information entry of the given kind, if any
/// was set.
pub open spec fn info_lookup(info: Seq<InfoRecord>, kind: InfoType) -> Option<Seq<u8>>
    decreases info.len(),
{
    if info.len() == 0 {
        None
    } else if info.last().kind == kind {
        Some(info.last().value@)
    } else {
        info_lookup(info.drop_last(), kind)
    }
}

impl Document {
    /// The state a new document starts in: nothing registered, the
    /// engine's default settings.
    pub open spec fn is_new(&self) -> bool {
        &&& self@.pages =~= Seq::<usize>::empty()
        &&& self@.fonts =~= Seq::<FontRecord>::empty()
        &&& self@.encoders =~= Seq::<Vec<u8>>::empty()
        &&& self@.current_encoder is None
        &&& self@.outlines =~= Seq::<OutlineRecord>::empty()
        &&& self@.labels =~= Seq::<PageLabelRecord>::empty()
        &&& self@.images =~= Seq::<ImageRecord>::empty()
        &&& self@.compression == CompressionMode::Uncompressed
        &&& self@.layout == PageLayout::Single
        &&& self@.mode == PageMode::UseNone
        &&& self@.encryption is None
        &&& self@.password is None
        &&& self@.info =~= Seq::<InfoRecord>::empty()
        &&& self@.support == EncodingSupport::spec_none()
        &&& self@.welcome is None
    }

    /// Create a new, empty document.
    pub fn new() -> (r: Document)
        ensures
            r.is_new(),
    {
        Document {
            page_ids: Vec::new(),
            fonts: Vec::new(),
            encoders: Vec::new(),
            current_encoder: None,
            outlines: Vec::new(),
            labels: Vec::new(),
            images: Vec::new(),
            compression: CompressionMode::Uncompressed,
            layout: PageLayout::Single,
            mode: PageMode::UseNone,
            encryption: None,
            password: None,
            info: Vec::new(),
            support: EncodingSupport {
                jp_fonts: false,
                kr_fonts: false,
                cns_fonts: false,
                cnt_fonts: false,
                jp_encodings: false,
                kr_encodings: false,
                cns_encodings: false,
                cnt_encodings: false,
                utf_encodings: false,
            },
            welcome: None,
        }
    }

    /// How many pages have been added.
    pub fn page_count(&self) -> (r: usize)
        ensures
            r == self@.pages.len(),
    {
        self.page_ids.len()
    }

    /// The pages in document order, each named by the index it was
    /// created with; for replay against the engine.
    pub fn pages_ref(&self) -> (r: &Vec<usize>)
        ensures
            r@ == self@.pages,
    {
        &self.page_ids
    }

    /// Add a new page after the last page.  The page starts in
    /// description mode, with the engine's default graphics state and
    /// page size, and nothing emitted.
    pub fn add_page(&mut self) -> (r: Result<Page, Error>)
        requires
            old(self)@.pages.len() < usize::MAX,
        ensures
            r is Ok,
            r matches Ok(p) ==> p.is_fresh() && p.wf() && p.page_id() == old(self)@.pages.len(),
            final(self)@ == (DocModel {
                pages: old(self)@.pages.push(old(self)@.pages.len() as usize),
                ..old(self)@
            }),
    {
        let id = self.page_ids.len();
        self.page_ids.push(id);
        Ok(Page::fresh(id))
    }

    /// Add a new page immediately before the page at the given position
    /// in the document order.  Fails when no page stands there; the new
    /// page is as `add_page` gives it.
    pub fn insert_page(&mut self, before: usize) -> (r: Result<Page, Error>)
        requires
            old(self)@.pages.len() < usize::MAX,
        ensures
            before < old(self)@.pages.len() ==> (r matches Ok(p) && p.is_fresh() && p.wf()
                && p.page_id() == old(self)@.pages.len() && final(self)@ == (DocModel {
                pages: old(self)@.pages.insert(before as int, old(self)@.pages.len() as usize),
                ..old(self)@
            })),
            before >= old(self)@.pages.len() ==> (r matches Err(e) && e == Error::InvalidArgument
                && *final(self) == *old(self)),
    {
        if before >= self.page_ids.len() {
            return Err(Error::InvalidArgument);
        }
        let id = self.page_ids.len();
        self.page_ids.insert(before, id);
        Ok(Page::fresh(id))
    }

    /// Register the font with the given name and optional encoding.
    ///
    /// Fails with `InvalidArgument`, registering nothing, exactly when
    /// either name holds an embedded null byte.
    pub fn font(&mut self, font_name: &str, encoding_name: Option<&str>) -> (r: Result<Font, Error>)
        ensures
            ({
                let bad = has_nul(font_name.spec_bytes()) || (encoding_name matches Some(e)
                    && has_nul(e.spec_bytes()));
                if bad {
                    r == Err::<Font, Error>(Error::InvalidArgument) && *final(self) == *old(self)
                } else {
                    r matches Ok(f) && f.id() == old(self)@.fonts.len() && final(self)@.fonts.len()
                        == old(self)@.fonts.len() + 1 && final(self)@.fonts.drop_last() == old(self)@.fonts && (final(self)@.fonts.last().source matches FontSource::Named(n) && n@ == font_name.spec_bytes()) && (match (
                        encoding_name,
                        final(self)@.fonts.last().encoding,
                    ) {
                        (Some(e), Some(stored)) => stored@ == e.spec_bytes(),
                        (None, None) => true,
                        _ => false,
                    }) && final(self)@ == (DocModel { fonts: final(self)@.fonts, ..old(self)@ })
                }
            }),
    {
        let name_bytes = font_name.as_bytes();
        if contains_nul(name_bytes) {
            return Err(Error::InvalidArgument);
        }
        let encoding: Option<Vec<u8>> = match encoding_name {
            Some(e) => {
                let eb = e.as_bytes();
                if contains_nul(eb) {
                    return Err(Error::InvalidArgument);
                }
                Some(vstd::slice::slice_to_vec(eb))
            },
            None => None,
        };
        let id = self.fonts.len();
        self.fonts.push(
            FontRecord { source: FontSource::Named(vstd::slice::slice_to_vec(name_bytes)), encoding },
        );
        proof {
            assert(self.fonts@.drop_last() =~= old(self).fonts@);
        }
        Ok(Font::from_id(id))
    }

    /// Register the font with the given name and encoding.
    pub fn find_font(&mut self, font_name: &str, encoding_name: &str) -> (r: Result<Font, Error>)
        ensures
            ({
                let bad = has_nul(font_name.spec_bytes()) || has_nul(encoding_name.spec_bytes());
                if bad {
                    r == Err::<Font, Error>(Error::InvalidArgument) && *final(self) == *old(self)
                } else {
                    r matches Ok(f) && f.id() == old(self)@.fonts.len() && final(self)@.fonts.len()
                        == old(self)@.fonts.len() + 1 && final(self)@.fonts.drop_last() == old(self)@.fonts && (final(self)@.fonts.last().source matches FontSource::Named(n) && n@ == font_name.spec_bytes()) && (final(self)@.fonts.last().encoding matches Some(stored) && stored@
                        == encoding_name.spec_bytes()) && final(self)@ == (DocModel {
                        fonts: final(self)@.fonts,
                        ..old(self)@
                    })
                }
            }),
    {
        self.font(font_name, Some(encoding_name))
    }

    /// Register a TrueType font from a file, to be loaded — and, if
    /// asked, embedded — at replay.
    ///
    /// Fails with `InvalidArgument`, registering nothing, exactly when
    /// the path holds an embedded null byte.
    pub fn load_ttf_font(&mut self, filename: &str, embedding: bool) -> (r: Result<Font, Error>)
        ensures
            has_nul(filename.spec_bytes()) ==> r == Err::<Font, Error>(Error::InvalidArgument)
                && *final(self) == *old(self),
            !has_nul(filename.spec_bytes()) ==> (r matches Ok(f) && f.id() == old(self)@.fonts.len()
                && final(self)@.fonts.len() == old(self)@.fonts.len() + 1
                && final(self)@.fonts.drop_last() == old(self)@.fonts && (final(self)@.fonts.last().source matches FontSource::TtfFile(p, e) && p@ == filename.spec_bytes()
                && e == embedding) && final(self)@.fonts.last().encoding is None && final(self)@
                == (DocModel { fonts: final(self)@.fonts, ..old(self)@ })),
    {
        let fb = filename.as_bytes();
        if contains_nul(fb) {
            return Err(Error::InvalidArgument);
        }
        let id = self.fonts.len();
        self.fonts.push(
            FontRecord {
                source: FontSource::TtfFile(vstd::slice::slice_to_vec(fb), embedding),
                encoding: None,
            },
        );
        proof {
            assert(self.fonts@.drop_last() =~= old(self).fonts@);
        }
        Ok(Font::from_id(id))
    }

    /// Register a Type 1 font from its AFM and font files, with the
    /// given encoding, to be loaded at replay.
    ///
    /// Fails with `InvalidArgument`, registering nothing, exactly when
    /// one of the three names holds an embedded null byte.
    pub fn load_type1_font(
        &mut self,
        afm_filename: &str,
        pfm_filename: &str,
        encoding_name: &str,
    ) -> (r: Result<Font, Error>)
        ensures
            ({
                let bad = has_nul(afm_filename.spec_bytes()) || has_nul(pfm_filename.spec_bytes())
                    || has_nul(encoding_name.spec_bytes());
                if bad {
                    r == Err::<Font, Error>(Error::InvalidArgument) && *final(self) == *old(self)
                } else {
                    r matches Ok(f) && f.id() == old(self)@.fonts.len() && final(self)@.fonts.len()
                        == old(self)@.fonts.len() + 1 && final(self)@.fonts.drop_last() == old(self)@.fonts && (final(self)@.fonts.last().source matches FontSource::Type1File(afm, pfm)
                        && afm@ == afm_filename.spec_bytes() && pfm@ == pfm_filename.spec_bytes())
                        && (final(self)@.fonts.last().encoding matches Some(stored) && stored@
                        == encoding_name.spec_bytes()) && final(self)@ == (DocModel {
                        fonts: final(self)@.fonts,
                        ..old(self)@
                    })
                }
            }),
    {
        let ab = afm_filename.as_bytes();
        if contains_nul(ab) {
            return Err(Error::InvalidArgument);
        }
        let pb = pfm_filename.as_bytes();
        if contains_nul(pb) {
            return Err(Error::InvalidArgument);
        }
        let eb = encoding_name.as_bytes();
        if contains_nul(eb) {
            return Err(Error::InvalidArgument);
        }
        let id = self.fonts.len();
        self.fonts.push(
            FontRecord {
                source: FontSource::Type1File(
                    vstd::slice::slice_to_vec(ab),
                    vstd::slice::slice_to_vec(pb),
                ),
                encoding: Some(vstd::slice::slice_to_vec(eb)),
            },
        );
        proof {
            assert(self.fonts@.drop_last() =~= old(self).fonts@);
        }
        Ok(Font::from_id(id))
    }

    /// Register the encoder with the given encoding name.
    ///
    /// Fails with `InvalidArgument`, registering nothing, exactly when
    /// the name holds an embedded null byte.
    pub fn find_encoder(&mut self, encoding_name: &str) -> (r: Result<Encoder, Error>)
        ensures
            has_nul(encoding_name.spec_bytes()) ==> r == Err::<Encoder, Error>(
                Error::InvalidArgument,
            ) && *final(self) == *old(self),
            !has_nul(encoding_name.spec_bytes()) ==> (r matches Ok(e) && e.id() == old(self)@.encoders.len() && final(self)@.encoders.len() == old(self)@.encoders.len() + 1
                && final(self)@.encoders.drop_last() == old(self)@.encoders && final(self)@.encoders.last()@ == encoding_name.spec_bytes() && final(self)@ == (DocModel {
                encoders: final(self)@.encoders,
                ..old(self)@
            })),
    {
        let eb = encoding_name.as_bytes();
        if contains_nul(eb) {
            return Err(Error::InvalidArgument);
        }
        let id = self.encoders.len();
        self.encoders.push(vstd::slice::slice_to_vec(eb));
        proof {
            assert(self.encoders@.drop_last() =~= old(self).encoders@);
        }
        Ok(Encoder::from_id(id))
    }

    /// Register an encoder and make it the document's current encoder.
    pub fn set_current_encoder(&mut self, encoding_name: &str) -> (r: Result<(), Error>)
        ensures
            has_nul(encoding_name.spec_bytes()) ==> r == Err::<(), Error>(Error::InvalidArgument)
                && *final(self) == *old(self),
            !has_nul(encoding_name.spec_bytes()) ==> r is Ok && final(self)@.encoders.len() == old(self)@.encoders.len() + 1 && final(self)@.encoders.drop_last() == old(self)@.encoders
                && final(self)@.encoders.last()@ == encoding_name.spec_bytes() && final(self)@.current_encoder == Some(old(self)@.encoders.len() as usize) && final(self)@ == (
            DocModel {
                encoders: final(self)@.encoders,
                current_encoder: final(self)@.current_encoder,
                ..old(self)@
            }),
    {
        let eb = encoding_name.as_bytes();
        if contains_nul(eb) {
            return Err(Error::InvalidArgument);
        }
        let id = self.encoders.len();
        self.encoders.push(vstd::slice::slice_to_vec(eb));
        self.current_encoder = Some(id);
        proof {
            assert(self.encoders@.drop_last() =~= old(self).encoders@);
        }
        Ok(())
    }

    /// The document's current encoder, when one has been set.
    pub fn current_encoder(&self) -> (r: Result<Encoder, Error>)
        ensures
            self@.current_encoder matches Some(id) ==> (r matches Ok(e) && e.id() == id),
            self@.current_encoder is None ==> r == Err::<Encoder, Error>(Error::EngineNullHandle),
    {
        match self.current_encoder {
            Some(id) => Ok(Encoder::from_id(id)),
            None => Err(Error::EngineNullHandle),
        }
    }

    /// Create an outline entry with the given title, optionally under a
    /// parent entry, optionally with an encoder for the title.
    ///
    /// Fails with `InvalidArgument`, creating nothing, when the title
    /// holds an embedded null byte or either handle is not one of this
    /// document's.
    pub fn create_outline(
        &mut self,
        title: &str,
        parent: Option<&Outline>,
        enc: Option<&Encoder>,
    ) -> (r: Result<Outline, Error>)
        ensures
            ({
                let bad = has_nul(title.spec_bytes()) || (parent matches Some(p) && p.id() >= old(self)@.outlines.len()) || (enc matches Some(e) && e.id() >= old(self)@.encoders.len());
                if bad {
                    r == Err::<Outline, Error>(Error::InvalidArgument) && *final(self) == *old(self)
                } else {
                    r matches Ok(o) && o.id() == old(self)@.outlines.len() && final(self)@.outlines.len() == old(self)@.outlines.len() + 1 && final(self)@.outlines.drop_last() == old(self)@.outlines && final(self)@.outlines.last().title@ == title.spec_bytes() && final(self)@.outlines.last().parent == (match parent {
                        Some(p) => Some(p.id() as usize),
                        None => None::<usize>,
                    }) && final(self)@.outlines.last().encoder == (match enc {
                        Some(e) => Some(e.id() as usize),
                        None => None::<usize>,
                    }) && final(self)@ == (DocModel {
                        outlines: final(self)@.outlines,
                        ..old(self)@
                    })
                }
            }),
    {
        let tb = title.as_bytes();
        if contains_nul(tb) {
            return Err(Error::InvalidArgument);
        }
        let parent_id: Option<usize> = match parent {
            Some(p) => {
                let id = p.handle();
                if id >= self.outlines.len() {
                    return Err(Error::InvalidArgument);
                }
                Some(id)
            },
            None => None,
        };
        let encoder_id: Option<usize> = match enc {
            Some(e) => {
                let id = e.handle();
                if id >= self.encoders.len() {
                    return Err(Error::InvalidArgument);
                }
                Some(id)
            },
            None => None,
        };
        let id = self.outlines.len();
        self.outlines.push(
            OutlineRecord {
                title: vstd::slice::slice_to_vec(tb),
                parent: parent_id,
                encoder: encoder_id,
            },
        );
        proof {
            assert(self.outlines@.drop_last() =~= old(self).outlines@);
        }
        Ok(Outline::from_id(id))
    }

    /// Create an outline entry titled by raw bytes.
    pub fn create_outline_bytes(
        &mut self,
        title: &[u8],
        parent: Option<&Outline>,
        enc: Option<&Encoder>,
    ) -> (r: Result<Outline, Error>)
        ensures
            ({
                let bad = has_nul(title@) || (parent matches Some(p) && p.id() >= old(self)@.outlines.len()) || (enc matches Some(e) && e.id() >= old(self)@.encoders.len());
                if bad {
                    r == Err::<Outline, Error>(Error::InvalidArgument) && *final(self) == *old(self)
                } else {
                    r matches Ok(o) && o.id() == old(self)@.outlines.len() && final(self)@.outlines.len() == old(self)@.outlines.len() + 1 && final(self)@.outlines.drop_last() == old(self)@.outlines && final(self)@.outlines.last().title@ == title@ && final(self)@.outlines.last().parent == (match parent {
                        Some(p) => Some(p.id() as usize),
                        None => None::<usize>,
                    }) && final(self)@.outlines.last().encoder == (match enc {
                        Some(e) => Some(e.id() as usize),
                        None => None::<usize>,
                    }) && final(self)@ == (DocModel {
                        outlines: final(self)@.outlines,
                        ..old(self)@
                    })
                }
            }),
    {
        if contains_nul(title) {
            return Err(Error::InvalidArgument);
        }
        let parent_id: Option<usize> = match parent {
            Some(p) => {
                let id = p.handle();
                if id >= self.outlines.len() {
                    return Err(Error::InvalidArgument);
                }
                Some(id)
            },
            None => None,
        };
        let encoder_id: Option<usize> = match enc {
            Some(e) => {
                let id = e.handle();
                if id >= self.encoders.len() {
                    return Err(Error::InvalidArgument);
                }
                Some(id)
            },
            None => None,
        };
        let id = self.outlines.len();
        self.outlines.push(
            OutlineRecord {
                title: vstd::slice::slice_to_vec(title),
                parent: parent_id,
                encoder: encoder_id,
            },
        );
        proof {
            assert(self.outlines@.drop_last() =~= old(self).outlines@);
        }
        Ok(Outline::from_id(id))
    }

    /// Create an outline entry with the document's current encoder.
    ///
    /// Fails with `EngineNullHandle`, creating nothing, when no current
    /// encoder has been set: the entry cannot name the encoder it is to
    /// be created with.
    pub fn add_outline(&mut self, title: &str, parent: Option<&Outline>) -> (r: Result<
        Outline,
        Error,
    >)
        ensures
            old(self)@.current_encoder is None ==> r == Err::<Outline, Error>(
                Error::EngineNullHandle,
            ) && *final(self) == *old(self),
            ({
                let bad = has_nul(title.spec_bytes()) || (parent matches Some(p) && p.id() >= old(self)@.outlines.len());
                old(self)@.current_encoder is Some ==> if bad {
                    r == Err::<Outline, Error>(Error::InvalidArgument) && *final(self) == *old(self)
                } else {
                    r matches Ok(o) && o.id() == old(self)@.outlines.len() && final(self)@.outlines.len() == old(self)@.outlines.len() + 1 && final(self)@.outlines.drop_last() == old(self)@.outlines && final(self)@.outlines.last().title@ == title.spec_bytes() && final(self)@.outlines.last().encoder == old(self)@.current_encoder && final(self)@ == (
                    DocModel { outlines: final(self)@.outlines, ..old(self)@ })
                }
            }),
    {
        if self.current_encoder.is_none() {
            return Err(Error::EngineNullHandle);
        }
        let tb = title.as_bytes();
        if contains_nul(tb) {
            return Err(Error::InvalidArgument);
        }
        let parent_id: Option<usize> = match parent {
            Some(p) => {
                let id = p.handle();
                if id >= self.outlines.len() {
                    return Err(Error::InvalidArgument);
                }
                Some(id)
            },
            None => None,
        };
        let id = self.outlines.len();
        self.outlines.push(
            OutlineRecord {
                title: vstd::slice::slice_to_vec(tb),
                parent: parent_id,
                encoder: self.current_encoder,
            },
        );
        proof {
            assert(self.outlines@.drop_last() =~= old(self).outlines@);
        }
        Ok(Outline::from_id(id))
    }
}


impl Document {
    /// Add a page-labeling range.
    ///
    /// Fails with `InvalidArgument`, recording nothing, when a page
    /// number does not fit the engine's integer width or the prefix
    /// holds an embedded null byte.
    pub fn add_page_label(
        &mut self,
        page_num: usize,
        style: PageNumStyle,
        first_page: usize,
        prefix: Option<&str>,
    ) -> (r: Result<(), Error>)
        ensures
            ({
                let bad = page_num > u32::MAX || first_page > u32::MAX || (prefix matches Some(p)
                    && has_nul(p.spec_bytes()));
                if bad {
                    r == Err::<(), Error>(Error::InvalidArgument) && *final(self) == *old(self)
                } else {
                    r is Ok && final(self)@.labels.len() == old(self)@.labels.len() + 1 && final(self)@.labels.drop_last() == old(self)@.labels && final(self)@.labels.last().page_num
                        == page_num as u32 && final(self)@.labels.last().style == style && final(self)@.labels.last().first_page == first_page as u32 && final(self)@.labels.last().prefix@ == (match prefix {
                        Some(p) => p.spec_bytes(),
                        None => Seq::<u8>::empty(),
                    }) && final(self)@ == (DocModel { labels: final(self)@.labels, ..old(self)@ })
                }
            }),
    {
        if page_num > u32::MAX as usize || first_page > u32::MAX as usize {
            return Err(Error::InvalidArgument);
        }
        let prefix_bytes: Vec<u8> = match prefix {
            Some(p) => {
                let pb = p.as_bytes();
                if contains_nul(pb) {
                    return Err(Error::InvalidArgument);
                }
                vstd::slice::slice_to_vec(pb)
            },
            None => Vec::new(),
        };
        self.labels.push(
            PageLabelRecord {
                page_num: page_num as u32,
                style,
                first_page: first_page as u32,
                prefix: prefix_bytes,
            },
        );
        proof {
            assert(self.labels@.drop_last() =~= old(self).labels@);
        }
        Ok(())
    }

    /// Set which kinds of content are compressed.
    pub fn set_compression_mode(&mut self, mode: CompressionMode) -> (r: Result<(), Error>)
        ensures
            r is Ok,
            final(self)@ == (DocModel { compression: mode, ..old(self)@ }),
    {
        self.compression = mode;
        Ok(())
    }

    /// Set what a viewer shows beside the document.
    pub fn set_page_mode(&mut self, mode: PageMode) -> (r: Result<(), Error>)
        ensures
            r is Ok,
            final(self)@ == (DocModel { mode, ..old(self)@ }),
    {
        self.mode = mode;
        Ok(())
    }

    /// What a viewer shows beside the document.
    pub fn page_mode(&self) -> (r: PageMode)
        ensures
            r == self@.mode,
    {
        self.mode
    }

    /// Set how a viewer lays the pages out.
    pub fn set_page_layout(&mut self, layout: PageLayout) -> (r: Result<(), Error>)
        ensures
            r is Ok,
            final(self)@ == (DocModel { layout, ..old(self)@ }),
    {
        self.layout = layout;
        Ok(())
    }

    /// How a viewer lays the pages out.
    pub fn page_layout(&self) -> (r: PageLayout)
        ensures
            r == self@.layout,
    {
        self.layout
    }

    /// Set the owner and user passwords.
    ///
    /// Fails with `InvalidArgument`, recording nothing, when either
    /// password holds an embedded null byte.
    pub fn set_password(&mut self, owner_password: &str, user_password: &str) -> (r: Result<
        (),
        Error,
    >)
        ensures
            ({
                let bad = has_nul(owner_password.spec_bytes()) || has_nul(
                    user_password.spec_bytes(),
                );
                if bad {
                    r == Err::<(), Error>(Error::InvalidArgument) && *final(self) == *old(self)
                } else {
                    r is Ok && (final(self)@.password matches Some(pw) && pw.owner@
                        == owner_password.spec_bytes() && pw.user@ == user_password.spec_bytes())
                        && final(self)@ == (DocModel {
                        password: final(self)@.password,
                        ..old(self)@
                    })
                }
            }),
    {
        let ob = owner_password.as_bytes();
        if contains_nul(ob) {
            return Err(Error::InvalidArgument);
        }
        let ub = user_password.as_bytes();
        if contains_nul(ub) {
            return Err(Error::InvalidArgument);
        }
        self.password = Some(
            PasswordRecord {
                owner: vstd::slice::slice_to_vec(ob),
                user: vstd::slice::slice_to_vec(ub),
            },
        );
        Ok(())
    }

    /// Set the encryption revision and key length.
    ///
    /// Fails with `InvalidArgument`, recording nothing, when the key
    /// length does not fit the engine's integer width.
    pub fn set_encryption_mode(&mut self, enc_mode: EncryptMode, key_len: usize) -> (r: Result<
        (),
        Error,
    >)
        ensures
            key_len > u32::MAX ==> r == Err::<(), Error>(Error::InvalidArgument) && *final(self)
                == *old(self),
            key_len <= u32::MAX ==> r is Ok && final(self)@ == (DocModel {
                encryption: Some((enc_mode, key_len as u32)),
                ..old(self)@
            }),
    {
        if key_len > u32::MAX as usize {
            return Err(Error::InvalidArgument);
        }
        self.encryption = Some((enc_mode, key_len as u32));
        Ok(())
    }

    /// Set one document information field.
    ///
    /// Fails with `InvalidArgument`, recording nothing, when the value
    /// holds an embedded null byte.
    pub fn set_info_attribute(&mut self, info_type: InfoType, value: &str) -> (r: Result<(), Error>)
        ensures
            has_nul(value.spec_bytes()) ==> r == Err::<(), Error>(Error::InvalidArgument) && *final(self) == *old(self),
            !has_nul(value.spec_bytes()) ==> r is Ok && final(self)@.info.len() == old(self)@.info.len() + 1 && final(self)@.info.drop_last() == old(self)@.info && final(self)@.info.last().kind == info_type && final(self)@.info.last().value@
                == value.spec_bytes() && final(self)@ == (DocModel {
                info: final(self)@.info,
                ..old(self)@
            }),
    {
        let vb = value.as_bytes();
        if contains_nul(vb) {
            return Err(Error::InvalidArgument);
        }
        self.info.push(InfoRecord { kind: info_type, value: vstd::slice::slice_to_vec(vb) });
        proof {
            assert(self.info@.drop_last() =~= old(self).info@);
        }
        Ok(())
    }

    /// The value last set for one information field, if any.
    pub fn get_info_attribute(&self, info_type: InfoType) -> (r: Option<&Vec<u8>>)
        ensures
            match (r, info_lookup(self@.info, info_type)) {
                (Some(v), Some(m)) => v@ == m,
                (None::<&Vec<u8>>, None::<Seq<u8>>) => true,
                _ => false,
            },
    {
        let n = self.info.len();
        let mut i: usize = n;
        proof {
            assert(self@.info.subrange(0, n as int) =~= self@.info);
        }
        while i > 0
            invariant
                0 <= i <= n,
                n == self@.info.len(),
                info_lookup(self@.info, info_type) == info_lookup(
                    self@.info.subrange(0, i as int),
                    info_type,
                ),
            decreases i,
        {
            let entry = &self.info[i - 1];
            proof {
                assert(self@.info.subrange(0, i as int).last() == self@.info[i - 1]);
                assert(self@.info.subrange(0, i as int).drop_last() =~= self@.info.subrange(
                    0,
                    i as int - 1,
                ));
            }
            if entry.kind == info_type {
                return Some(&self.info[i - 1].value);
            }
            i = i - 1;
        }
        proof {
            assert(self@.info.subrange(0, 0) =~= Seq::<InfoRecord>::empty());
        }
        None
    }

    /// Show the given destination when the document is opened.
    ///
    /// Fails with `InvalidArgument` when no fit has been set on the
    /// destination, or its owning page is not one of this document's.
    pub fn set_welcome_page(&mut self, dst: &Destination) -> (r: Result<(), Error>)
        ensures
            (match dst.fit() {
                Some(f) => dst.page() < old(self)@.pages.len() ==> r is Ok && final(self)@ == (
                DocModel { welcome: Some((dst.page(), f)), ..old(self)@ }),
                None => true,
            }),
            dst.fit() is None || dst.page() >= old(self)@.pages.len() ==> r == Err::<(), Error>(
                Error::InvalidArgument,
            ) && *final(self) == *old(self),
    {
        if dst.owner_page() >= self.page_ids.len() {
            return Err(Error::InvalidArgument);
        }
        match dst.current_fit() {
            Some(f) => {
                self.welcome = Some((dst.owner_page(), f));
                Ok(())
            },
            None => Err(Error::InvalidArgument),
        }
    }

    /// Register a PNG image by file path.
    ///
    /// Fails with `InvalidArgument`, recording nothing, when the path
    /// holds an embedded null byte.
    pub fn load_png_image(&mut self, filename: &str) -> (r: Result<Image, Error>)
        ensures
            has_nul(filename.spec_bytes()) ==> r == Err::<Image, Error>(Error::InvalidArgument)
                && *final(self) == *old(self),
            !has_nul(filename.spec_bytes()) ==> (r matches Ok(img) && img.id() == old(self)@.images.len() && final(self)@.images.len() == old(self)@.images.len() + 1 && final(self)@.images.drop_last() == old(self)@.images && (final(self)@.images.last() matches ImageRecord::PngFile(p) && p@ == filename.spec_bytes())
                && final(self)@ == (DocModel { images: final(self)@.images, ..old(self)@ })),
    {
        let fb = filename.as_bytes();
        if contains_nul(fb) {
            return Err(Error::InvalidArgument);
        }
        let id = self.images.len();
        self.images.push(ImageRecord::PngFile(vstd::slice::slice_to_vec(fb)));
        proof {
            assert(self.images@.drop_last() =~= old(self).images@);
        }
        Ok(Image::from_id(id))
    }

    /// Register a JPEG image by file path.
    pub fn load_jpeg_image(&mut self, filename: &str) -> (r: Result<Image, Error>)
        ensures
            has_nul(filename.spec_bytes()) ==> r == Err::<Image, Error>(Error::InvalidArgument)
                && *final(self) == *old(self),
            !has_nul(filename.spec_bytes()) ==> (r matches Ok(img) && img.id() == old(self)@.images.len() && final(self)@.images.len() == old(self)@.images.len() + 1 && final(self)@.images.drop_last() == old(self)@.images && (final(self)@.images.last() matches ImageRecord::JpegFile(p) && p@ == filename.spec_bytes())
                && final(self)@ == (DocModel { images: final(self)@.images, ..old(self)@ })),
    {
        let fb = filename.as_bytes();
        if contains_nul(fb) {
            return Err(Error::InvalidArgument);
        }
        let id = self.images.len();
        self.images.push(ImageRecord::JpegFile(vstd::slice::slice_to_vec(fb)));
        proof {
            assert(self.images@.drop_last() =~= old(self).images@);
        }
        Ok(Image::from_id(id))
    }

    /// Register a raw image stored in a file.
    ///
    /// Fails with `InvalidArgument`, recording nothing, when the path
    /// holds an embedded null byte or a dimension does not fit the
    /// engine's integer width.
    pub fn load_raw_image(
        &mut self,
        filename: &str,
        width: usize,
        height: usize,
        color_space: ColorSpace,
    ) -> (r: Result<Image, Error>)
        ensures
            ({
                let bad = has_nul(filename.spec_bytes()) || width > u32::MAX || height > u32::MAX;
                if bad {
                    r == Err::<Image, Error>(Error::InvalidArgument) && *final(self) == *old(self)
                } else {
                    r matches Ok(img) && img.id() == old(self)@.images.len() && final(self)@.images.len() == old(self)@.images.len() + 1 && final(self)@.images.drop_last()
                        == old(self)@.images && (final(self)@.images.last() matches ImageRecord::RawFile(p, w, h, cs) && p@
                        == filename.spec_bytes() && w == width as u32 && h == height as u32 && cs
                        == color_space) && final(self)@ == (DocModel {
                        images: final(self)@.images,
                        ..old(self)@
                    })
                }
            }),
    {
        if width > u32::MAX as usize || height > u32::MAX as usize {
            return Err(Error::InvalidArgument);
        }
        let fb = filename.as_bytes();
        if contains_nul(fb) {
            return Err(Error::InvalidArgument);
        }
        let id = self.images.len();
        self.images.push(
            ImageRecord::RawFile(
                vstd::slice::slice_to_vec(fb),
                width as u32,
                height as u32,
                color_space,
            ),
        );
        proof {
            assert(self.images@.drop_last() =~= old(self).images@);
        }
        Ok(Image::from_id(id))
    }

    /// Register a raw image held in memory.
    ///
    /// Fails with `InvalidArgument`, recording nothing, when a
    /// dimension or the component width does not fit the engine's
    /// integer width.
    pub fn load_raw_image_from_mem(
        &mut self,
        buf: &[u8],
        width: usize,
        height: usize,
        color_space: ColorSpace,
        bits_per_component: usize,
    ) -> (r: Result<Image, Error>)
        ensures
            ({
                let bad = width > u32::MAX || height > u32::MAX || bits_per_component > u32::MAX;
                if bad {
                    r == Err::<Image, Error>(Error::InvalidArgument) && *final(self) == *old(self)
                } else {
                    r matches Ok(img) && img.id() == old(self)@.images.len() && final(self)@.images.len() == old(self)@.images.len() + 1 && final(self)@.images.drop_last()
                        == old(self)@.images && (final(self)@.images.last() matches ImageRecord::RawMem(d, w, h, cs, b) && d@ == buf@ && w
                        == width as u32 && h == height as u32 && cs == color_space && b
                        == bits_per_component as u32) && final(self)@ == (DocModel {
                        images: final(self)@.images,
                        ..old(self)@
                    })
                }
            }),
    {
        if width > u32::MAX as usize || height > u32::MAX as usize || bits_per_component
            > u32::MAX as usize {
            return Err(Error::InvalidArgument);
        }
        let id = self.images.len();
        self.images.push(
            ImageRecord::RawMem(
                vstd::slice::slice_to_vec(buf),
                width as u32,
                height as u32,
                color_space,
                bits_per_component as u32,
            ),
        );
        proof {
            assert(self.images@.drop_last() =~= old(self).images@);
        }
        Ok(Image::from_id(id))
    }
}

impl Document {
    /// Enable the engine's Japanese fonts.
    pub fn use_jpfonts(&mut self) -> (r: Result<(), Error>)
        ensures
            r is Ok,
            final(self)@ == (DocModel {
                support: (EncodingSupport { jp_fonts: true, ..old(self)@.support }),
                ..old(self)@
            }),
    {
        self.support.jp_fonts = true;
        Ok(())
    }

    /// Enable the engine's Korean fonts.
    pub fn use_krfonts(&mut self) -> (r: Result<(), Error>)
        ensures
            r is Ok,
            final(self)@ == (DocModel {
                support: (EncodingSupport { kr_fonts: true, ..old(self)@.support }),
                ..old(self)@
            }),
    {
        self.support.kr_fonts = true;
        Ok(())
    }

    /// Enable the engine's simplified Chinese fonts.
    pub fn use_cnsfonts(&mut self) -> (r: Result<(), Error>)
        ensures
            r is Ok,
            final(self)@ == (DocModel {
                support: (EncodingSupport { cns_fonts: true, ..old(self)@.support }),
                ..old(self)@
            }),
    {
        self.support.cns_fonts = true;
        Ok(())
    }

    /// Enable the engine's traditional Chinese fonts.
    pub fn use_cntfonts(&mut self) -> (r: Result<(), Error>)
        ensures
            r is Ok,
            final(self)@ == (DocModel {
                support: (EncodingSupport { cnt_fonts: true, ..old(self)@.support }),
                ..old(self)@
            }),
    {
        self.support.cnt_fonts = true;
        Ok(())
    }

    /// Enable the engine's Japanese encodings.
    pub fn use_jpencodings(&mut self) -> (r: Result<(), Error>)
        ensures
            r is Ok,
            final(self)@ == (DocModel {
                support: (EncodingSupport { jp_encodings: true, ..old(self)@.support }),
                ..old(self)@
            }),
    {
        self.support.jp_encodings = true;
        Ok(())
    }

    /// Enable the engine's Korean encodings.
    pub fn use_krencodings(&mut self) -> (r: Result<(), Error>)
        ensures
            r is Ok,
            final(self)@ == (DocModel {
                support: (EncodingSupport { kr_encodings: true, ..old(self)@.support }),
                ..old(self)@
            }),
    {
        self.support.kr_encodings = true;
        Ok(())
    }

    /// Enable the engine's simplified Chinese encodings.
    pub fn use_cnsencodings(&mut self) -> (r: Result<(), Error>)
        ensures
            r is Ok,
            final(self)@ == (DocModel {
                support: (EncodingSupport { cns_encodings: true, ..old(self)@.support }),
                ..old(self)@
            }),
    {
        self.support.cns_encodings = true;
        Ok(())
    }

    /// Enable the engine's traditional Chinese encodings.
    pub fn use_cntencodings(&mut self) -> (r: Result<(), Error>)
        ensures
            r is Ok,
            final(self)@ == (DocModel {
                support: (EncodingSupport { cnt_encodings: true, ..old(self)@.support }),
                ..old(self)@
            }),
    {
        self.support.cnt_encodings = true;
        Ok(())
    }

    /// Enable the engine's UTF-8 encodings.
    pub fn use_utfencodings(&mut self) -> (r: Result<(), Error>)
        ensures
            r is Ok,
            final(self)@ == (DocModel {
                support: (EncodingSupport { utf_encodings: true, ..old(self)@.support }),
                ..old(self)@
            }),
    {
        self.support.utf_encodings = true;
        Ok(())
    }

    /// Which optional font and encoding sets are enabled.
    pub fn support(&self) -> (r: EncodingSupport)
        ensures
            r == self@.support,
    {
        self.support
    }

    /// The registered fonts, for replay against the engine.
    pub fn fonts_ref(&self) -> (r: &Vec<FontRecord>)
        ensures
            r@ == self@.fonts,
    {
        &self.fonts
    }

    /// The registered encoder names, for replay against the engine.
    pub fn encoders_ref(&self) -> (r: &Vec<Vec<u8>>)
        ensures
            r@ == self@.encoders,
    {
        &self.encoders
    }

    /// The outline entries, for replay against the engine.
    pub fn outlines_ref(&self) -> (r: &Vec<OutlineRecord>)
        ensures
            r@ == self@.outlines,
    {
        &self.outlines
    }

    /// The page-labeling ranges, for replay against the engine.
    pub fn labels_ref(&self) -> (r: &Vec<PageLabelRecord>)
        ensures
            r@ == self@.labels,
    {
        &self.labels
    }

    /// The registered images, for replay against the engine.
    pub fn images_ref(&self) -> (r: &Vec<ImageRecord>)
        ensures
            r@ == self@.images,
    {
        &self.images
    }

    /// The information entries, for replay against the engine.
    pub fn info_ref(&self) -> (r: &Vec<InfoRecord>)
        ensures
            r@ == self@.info,
    {
        &self.info
    }

    /// The compression mode.
    pub fn compression_mode(&self) -> (r: CompressionMode)
        ensures
            r == self@.compression,
    {
        self.compression
    }

    /// The encryption mode and key length, when encryption was set.
    pub fn encryption(&self) -> (r: Option<(EncryptMode, u32)>)
        ensures
            r == self@.encryption,
    {
        self.encryption
    }

    /// The passwords, when they were set.
    pub fn password_ref(&self) -> (r: &Option<PasswordRecord>)
        ensures
            *r == self@.password,
    {
        &self.password
    }

    /// The destination shown when the document opens, when one was
    /// set: the owning page's index and the fit.
    pub fn welcome_page(&self) -> (r: Option<(usize, DestinationFit)>)
        ensures
            r == self@.welcome,
    {
        self.welcome
    }
}

impl EncodingSupport {
    /// No optional set enabled.
    pub open spec fn spec_none() -> EncodingSupport {
        EncodingSupport {
            jp_fonts: false,
            kr_fonts: false,
            cns_fonts: false,
            cnt_fonts: false,
            jp_encodings: false,
            kr_encodings: false,
            cns_encodings: false,
            cnt_encodings: false,
            utf_encodings: false,
        }
    }
}

} // verus!
