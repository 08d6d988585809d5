use haru::destination::DestinationFit;
use haru::document::{
    ColorSpace, CompressionMode, Document, FontSource, ImageRecord, InfoType, PageLayout, PageMode,
    PageNumStyle,
};
use haru::error::Error;

#[test]
fn compression_flags_match_the_engine() {
    assert_eq!(CompressionMode::Uncompressed.bits(), 0);
    assert_eq!(CompressionMode::Text.bits(), 1);
    assert_eq!(CompressionMode::Image.bits(), 2);
    assert_eq!(CompressionMode::Metadata.bits(), 4);
    assert_eq!(
        CompressionMode::All.bits(),
        CompressionMode::Text.bits() | CompressionMode::Image.bits()
            | CompressionMode::Metadata.bits()
    );
}

#[test]
fn font_names_are_checked_for_nul_bytes() {
    let mut doc = Document::new();
    assert_eq!(doc.font("Helv\0etica", None), Err(Error::InvalidArgument));
    assert_eq!(
        doc.font("Helvetica", Some("90ms-RKSJ-H\0")),
        Err(Error::InvalidArgument)
    );
    let f = doc.font("Helvetica", None).unwrap();
    assert_eq!(f.handle(), 0);
    let g = doc.find_font("Courier", "StandardEncoding").unwrap();
    assert_eq!(g.handle(), 1);
    assert_eq!(doc.fonts_ref().len(), 2);
    assert!(matches!(&doc.fonts_ref()[1].source,
        FontSource::Named(n) if n.as_slice() == b"Courier"));
    assert_eq!(
        doc.fonts_ref()[1].encoding.as_ref().unwrap().as_slice(),
        b"StandardEncoding"
    );
}

#[test]
fn file_fonts_are_recorded_for_replay() {
    let mut doc = Document::new();
    assert_eq!(
        doc.load_ttf_font("fonts\0.ttf", true),
        Err(Error::InvalidArgument)
    );
    let ttf = doc.load_ttf_font("fonts/body.ttf", true).unwrap();
    assert_eq!(ttf.handle(), 0);
    assert!(matches!(&doc.fonts_ref()[0].source,
        FontSource::TtfFile(p, true) if p.as_slice() == b"fonts/body.ttf"));
    assert_eq!(doc.fonts_ref()[0].encoding, None);

    assert_eq!(
        doc.load_type1_font("a.afm", "a.pfb", "Standard\0Encoding"),
        Err(Error::InvalidArgument)
    );
    let t1 = doc.load_type1_font("a.afm", "a.pfb", "StandardEncoding").unwrap();
    assert_eq!(t1.handle(), 1);
    assert!(matches!(&doc.fonts_ref()[1].source,
        FontSource::Type1File(afm, pfm)
            if afm.as_slice() == b"a.afm" && pfm.as_slice() == b"a.pfb"));
    assert_eq!(
        doc.fonts_ref()[1].encoding.as_ref().unwrap().as_slice(),
        b"StandardEncoding"
    );
}

#[test]
fn encoders_and_the_current_encoder() {
    let mut doc = Document::new();
    assert_eq!(doc.current_encoder(), Err(Error::EngineNullHandle));
    let e = doc.find_encoder("90ms-RKSJ-H").unwrap();
    assert_eq!(e.handle(), 0);
    doc.set_current_encoder("EUC-H").unwrap();
    let cur = doc.current_encoder().unwrap();
    assert_eq!(cur.handle(), 1);
    assert_eq!(doc.encoders_ref()[1].as_slice(), b"EUC-H");
    assert_eq!(
        doc.set_current_encoder("bad\0name"),
        Err(Error::InvalidArgument)
    );
}

#[test]
fn outlines_validate_their_handles() {
    let mut doc = Document::new();
    let root = doc.create_outline("chapter one", None, None).unwrap();
    // Without a current encoder there is nothing to create the entry
    // with, as the current-encoder query itself reports.
    assert_eq!(
        doc.add_outline("section one", Some(&root)),
        Err(Error::EngineNullHandle)
    );
    doc.set_current_encoder("StandardEncoding").unwrap();
    let child = doc.add_outline("section one", Some(&root)).unwrap();
    assert_eq!(root.handle(), 0);
    assert_eq!(child.handle(), 1);
    assert_eq!(doc.outlines_ref()[1].parent, Some(0));
    assert_eq!(doc.outlines_ref()[1].encoder, Some(0));

    // A handle from another document is not one of this document's.
    let mut other = Document::new();
    assert_eq!(
        other.create_outline("orphan", Some(&root), None),
        Err(Error::InvalidArgument)
    );
    assert_eq!(
        doc.create_outline("bad\0title", None, None),
        Err(Error::InvalidArgument)
    );
}

#[test]
fn page_labels_are_validated_and_recorded() {
    let mut doc = Document::new();
    assert_eq!(
        doc.add_page_label(1, PageNumStyle::Decimal, 1, Some("pre\0fix")),
        Err(Error::InvalidArgument)
    );
    doc.add_page_label(0, PageNumStyle::UpperRoman, 1, Some("A-"))
        .unwrap();
    doc.add_page_label(4, PageNumStyle::Decimal, 1, None).unwrap();
    let labels = doc.labels_ref();
    assert_eq!(labels.len(), 2);
    assert_eq!(labels[0].prefix.as_slice(), b"A-");
    assert!(matches!(labels[0].style, PageNumStyle::UpperRoman));
    assert_eq!(labels[1].page_num, 4);
    assert_eq!(labels[1].prefix.as_slice(), b"");
}

#[test]
fn info_attributes_return_the_last_value_set() {
    let mut doc = Document::new();
    assert_eq!(doc.get_info_attribute(InfoType::Title), None);
    doc.set_info_attribute(InfoType::Title, "first").unwrap();
    doc.set_info_attribute(InfoType::Author, "someone").unwrap();
    doc.set_info_attribute(InfoType::Title, "second").unwrap();
    assert_eq!(
        doc.get_info_attribute(InfoType::Title).unwrap().as_slice(),
        b"second"
    );
    assert_eq!(
        doc.get_info_attribute(InfoType::Author).unwrap().as_slice(),
        b"someone"
    );
    assert_eq!(doc.get_info_attribute(InfoType::Subject), None);
    assert_eq!(
        doc.set_info_attribute(InfoType::Subject, "a\0b"),
        Err(Error::InvalidArgument)
    );
}

#[test]
fn passwords_and_encryption_are_validated() {
    let mut doc = Document::new();
    assert_eq!(
        doc.set_password("owner\0", "user"),
        Err(Error::InvalidArgument)
    );
    doc.set_password("owner", "user").unwrap();
    let pw = doc.password_ref().as_ref().unwrap();
    assert_eq!(pw.owner.as_slice(), b"owner");
    assert_eq!(pw.user.as_slice(), b"user");
    doc.set_encryption_mode(haru::document::EncryptMode::Rev3, 16)
        .unwrap();
    assert!(matches!(
        doc.encryption(),
        Some((haru::document::EncryptMode::Rev3, 16))
    ));
}

#[test]
fn viewer_settings_are_recorded() {
    let mut doc = Document::new();
    assert!(matches!(doc.page_mode(), PageMode::UseNone));
    assert!(matches!(doc.page_layout(), PageLayout::Single));
    doc.set_page_mode(PageMode::FullScreen).unwrap();
    doc.set_page_layout(PageLayout::TwoColumnLeft).unwrap();
    assert!(matches!(doc.page_mode(), PageMode::FullScreen));
    assert!(matches!(doc.page_layout(), PageLayout::TwoColumnLeft));
    doc.set_compression_mode(CompressionMode::All).unwrap();
    assert!(matches!(doc.compression_mode(), CompressionMode::All));
}

#[test]
fn insert_page_stands_before_its_target() {
    let mut doc = Document::new();
    assert!(matches!(doc.insert_page(0), Err(Error::InvalidArgument)));
    let first = doc.add_page().unwrap();
    let second = doc.add_page().unwrap();
    assert_eq!(first.index_in_document(), 0);
    assert_eq!(second.index_in_document(), 1);
    // Insert before the second page: the document order shows the new
    // page between the two.
    let inserted = doc.insert_page(1).unwrap();
    assert_eq!(inserted.ops_len(), 0);
    assert_eq!(inserted.index_in_document(), 2);
    assert_eq!(doc.page_count(), 3);
    assert_eq!(doc.pages_ref().as_slice(), &[0, 2, 1]);
}

#[test]
fn destinations_record_their_fit_and_page() {
    let mut doc = Document::new();
    let page = doc.add_page().unwrap();
    let mut dst = page.create_destination();
    assert_eq!(dst.owner_page(), page.index_in_document());
    assert_eq!(dst.current_fit(), None);
    // An unset destination cannot open the document.
    assert_eq!(doc.set_welcome_page(&dst), Err(Error::InvalidArgument));
    dst.set_xyz(0, 841890, 1000).unwrap();
    assert_eq!(
        dst.current_fit(),
        Some(DestinationFit::Xyz(0, 841890, 1000))
    );
    doc.set_welcome_page(&dst).unwrap();
    assert_eq!(
        doc.welcome_page(),
        Some((0, DestinationFit::Xyz(0, 841890, 1000)))
    );
    dst.set_fit_h(700000).unwrap();
    assert_eq!(dst.owner_page(), 0);
    assert_eq!(dst.current_fit(), Some(DestinationFit::FitH(700000)));
    // A destination whose page is not one of this document's is
    // rejected.
    let mut other = Document::new();
    assert_eq!(other.set_welcome_page(&dst), Err(Error::InvalidArgument));
}

#[test]
fn images_are_validated_and_recorded() {
    let mut doc = Document::new();
    assert_eq!(
        doc.load_png_image("img\0.png"),
        Err(Error::InvalidArgument)
    );
    let png = doc.load_png_image("lena.png").unwrap();
    assert_eq!(png.handle(), 0);
    let raw = doc
        .load_raw_image_from_mem(&[0u8; 64], 8, 8, ColorSpace::DeviceGray, 8)
        .unwrap();
    assert_eq!(raw.handle(), 1);
    match &doc.images_ref()[1] {
        ImageRecord::RawMem(data, w, h, cs, bpc) => {
            assert_eq!(data.len(), 64);
            assert_eq!((*w, *h, *bpc), (8, 8, 8));
            assert!(matches!(cs, ColorSpace::DeviceGray));
        }
        other => panic!("unexpected record: {:?}", other),
    }
    let jpeg = doc.load_jpeg_image("photo.jpg").unwrap();
    assert_eq!(jpeg.handle(), 2);
}

#[test]
fn cjk_support_flags_accumulate() {
    let mut doc = Document::new();
    assert!(!doc.support().jp_fonts);
    doc.use_jpfonts().unwrap();
    doc.use_jpencodings().unwrap();
    doc.use_utfencodings().unwrap();
    let s = doc.support();
    assert!(s.jp_fonts && s.jp_encodings && s.utf_encodings);
    assert!(!s.kr_fonts && !s.cns_encodings);
}

#[test]
fn error_descriptions_are_nonempty() {
    assert!(!Error::EngineRejected(7).describe().is_empty());
    assert!(!Error::EngineNullHandle.describe().is_empty());
    assert!(!Error::InvalidArgument.describe().is_empty());
}
