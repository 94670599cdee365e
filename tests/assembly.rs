use image_to_pdf::{
    merge_indexed, page_geometry, ConfigError, DecodeError, DecodedImage, Document, ImageToPdf,
    IngestError, Points, Produced, DEFAULT_DPI, POINTS_PER_INCH,
};
use printpdf::image_crate::DynamicImage;
use std::sync::Mutex;

fn image(width: u32, height: u32) -> DecodedImage {
    DecodedImage::from_dynamic(DynamicImage::new_rgb8(width, height))
}

fn whole_sizes(doc: &Document) -> Vec<(u64, u64)> {
    doc.pages
        .iter()
        .map(|p| (p.geometry.width.whole().unwrap(), p.geometry.height.whole().unwrap()))
        .collect()
}

fn pixel_sizes(doc: &Document) -> Vec<(u32, u32)> {
    doc.pages.iter().map(|p| (p.image.width(), p.image.height())).collect()
}

#[test]
fn three_images_at_300_dpi() {
    let doc = ImageToPdf::default()
        .add_image(image(600, 800))
        .add_image(image(300, 400))
        .add_image(image(1200, 1600))
        .set_dpi(300)
        .unwrap()
        .set_document_title("Chapter 213".to_string())
        .create();
    assert_eq!(whole_sizes(&doc), vec![(144, 192), (72, 96), (288, 384)]);
    assert_eq!(doc.title, "Chapter 213");
}

#[test]
fn empty_builder_gives_no_pages() {
    let doc = ImageToPdf::default().create();
    assert!(doc.pages.is_empty());
    assert_eq!(doc.title, "");
}

#[test]
fn default_settings() {
    let b = ImageToPdf::default();
    assert_eq!(b.dpi(), 300);
    assert_eq!(DEFAULT_DPI, 300);
    assert_eq!(b.document_title(), "");
    assert!(b.images().is_empty());
}

#[test]
fn zero_dpi_is_refused() {
    let r = ImageToPdf::default().set_dpi(0);
    assert!(matches!(r, Err(ConfigError::NonPositiveDpi { dpi: 0 })));
}

#[test]
fn negative_dpi_is_refused() {
    let r = ImageToPdf::default().add_image(image(10, 10)).set_dpi(-5);
    assert!(matches!(r, Err(ConfigError::NonPositiveDpi { dpi: -5 })));
}

#[test]
fn new_refuses_non_positive_dpi() {
    assert!(matches!(
        ImageToPdf::new(Vec::new(), 0, String::new()),
        Err(ConfigError::NonPositiveDpi { dpi: 0 })
    ));
    let b = ImageToPdf::new(vec![image(144, 72)], 72, "t".to_string()).unwrap();
    assert_eq!(b.dpi(), 72);
    assert_eq!(whole_sizes(&b.create()), vec![(144, 72)]);
}

#[test]
fn last_dpi_setting_wins() {
    let once = ImageToPdf::default()
        .add_image(image(600, 800))
        .set_dpi(150)
        .unwrap()
        .create();
    let repeated = ImageToPdf::default()
        .add_image(image(600, 800))
        .set_dpi(72)
        .unwrap()
        .set_dpi(150)
        .unwrap()
        .set_dpi(150)
        .unwrap()
        .create();
    assert_eq!(whole_sizes(&once), vec![(288, 384)]);
    assert_eq!(whole_sizes(&repeated), whole_sizes(&once));
    assert_eq!(once.pages[0].geometry, repeated.pages[0].geometry);
}

#[test]
fn pages_follow_add_order() {
    let doc = ImageToPdf::default()
        .add_image(image(30, 60))
        .add_images(vec![image(10, 20), image(90, 30)])
        .add_image(image(300, 3))
        .set_dpi(72)
        .unwrap()
        .create();
    assert_eq!(pixel_sizes(&doc), vec![(30, 60), (10, 20), (90, 30), (300, 3)]);
    assert_eq!(whole_sizes(&doc), vec![(30, 60), (10, 20), (90, 30), (300, 3)]);
}

#[test]
fn geometry_is_pixels_times_72_over_dpi() {
    let g = page_geometry(600, 800, 300);
    assert_eq!(g.width, Points { numer: 43200, denom: 300 });
    assert_eq!(g.height, Points { numer: 57600, denom: 300 });
    assert_eq!(g.width.whole(), Some(144));
    assert_eq!(g.height.whole(), Some(192));
    assert_eq!(POINTS_PER_INCH, 72);
}

#[test]
fn geometry_keeps_fractions_exact() {
    let g = page_geometry(1, 5, 300);
    assert_eq!(g.width.whole(), None);
    assert!(g.width.same_length(&Points { numer: 6, denom: 25 }));
    assert!(!g.width.same_length(&Points { numer: 1, denom: 4 }));
    assert!(g.height.same_length(&Points { numer: 6, denom: 5 }));
}

#[test]
fn geometry_of_largest_pixel_count() {
    let g = page_geometry(u32::MAX, 1, 1);
    assert_eq!(g.width.numer, u32::MAX as u64 * 72);
    assert_eq!(g.width.whole(), Some(u32::MAX as u64 * 72));
}

#[test]
fn whole_of_zero_denominator_is_none() {
    assert_eq!(Points { numer: 5, denom: 0 }.whole(), None);
}

#[test]
fn decoded_image_reads_dimensions() {
    let img = image(17, 23);
    assert_eq!((img.width(), img.height()), (17, 23));
    let pixels = img.into_pixels();
    assert_eq!(printpdf::image_crate::GenericImageView::dimensions(&pixels), (17, 23));
}

#[test]
fn parallel_batch_keeps_producer_order() {
    let sizes: Vec<(u32, u32)> = vec![(400, 400), (10, 20), (300, 100), (5, 5), (200, 600)];
    let done: Mutex<Vec<Produced>> = Mutex::new(Vec::new());
    rayon::scope(|s| {
        for (index, &(w, h)) in sizes.iter().enumerate() {
            let done = &done;
            s.spawn(move |_| {
                let img = image(w, h);
                done.lock().unwrap().push((index, Ok(img)));
            });
        }
    });
    let mut produced = done.into_inner().unwrap();
    produced.reverse();
    let doc = ImageToPdf::default()
        .add_image(image(1, 2))
        .add_images_par(produced)
        .unwrap()
        .set_dpi(72)
        .unwrap()
        .create();
    let mut expected = vec![(1, 2)];
    expected.extend(sizes.iter().copied());
    assert_eq!(pixel_sizes(&doc), expected);
}

#[test]
fn merge_places_by_index() {
    let produced: Vec<Produced> = vec![(2, Ok(image(3, 3))), (0, Ok(image(1, 1))), (1, Ok(image(2, 2)))];
    let merged = merge_indexed(produced).unwrap();
    let widths: Vec<u32> = merged.iter().map(|i| i.width()).collect();
    assert_eq!(widths, vec![1, 2, 3]);
}

#[test]
fn merge_of_empty_batch() {
    assert!(merge_indexed(Vec::new()).unwrap().is_empty());
}

#[test]
fn merge_refuses_duplicate_index() {
    let produced: Vec<Produced> = vec![(0, Ok(image(1, 1))), (0, Ok(image(2, 2)))];
    assert!(matches!(merge_indexed(produced), Err(IngestError::BadIndices)));
}

#[test]
fn merge_refuses_index_out_of_range() {
    let produced: Vec<Produced> = vec![(0, Ok(image(1, 1))), (2, Ok(image(2, 2)))];
    assert!(matches!(merge_indexed(produced), Err(IngestError::BadIndices)));
}

#[test]
fn failed_unit_fails_the_whole_batch() {
    let produced: Vec<Produced> = vec![
        (3, Err(DecodeError { message: "late".to_string() })),
        (0, Ok(image(1, 1))),
        (1, Err(DecodeError { message: "early".to_string() })),
        (2, Ok(image(2, 2))),
    ];
    let r = ImageToPdf::default().add_images_par(produced);
    match r {
        Err(IngestError::UnitFailed { index, error }) => {
            assert_eq!(index, 1);
            assert_eq!(error.message, "early");
        }
        _ => panic!("expected the batch to fail"),
    }
}

#[test]
fn title_is_replaced() {
    let b = ImageToPdf::default()
        .set_document_title("first".to_string())
        .set_document_title("second".to_string());
    assert_eq!(b.document_title(), "second");
    assert_eq!(b.create().title, "second");
}
