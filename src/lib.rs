//! Turns a sequence of decoded raster images into a paginated document plan:
//! one page per image, each page sized from the image's pixel dimensions and
//! the configured resolution.
mod builder;
mod geometry;
mod image;
mod ingest;

pub use builder::{
    added_one_by_one, assembled_pages, dpi_set_in_turn, lemma_added_one_by_one,
    lemma_last_dpi_wins, lemma_pages_follow_additions, lemma_parallel_pages_in_producer_order,
    page_of, BuilderView, ConfigError, Document, ImageToPdf, Page, DEFAULT_DPI,
};
pub use geometry::{geometry_of, page_geometry, points_of, PageGeometry, Points, POINTS_PER_INCH};
pub use image::{pixel_size_of, DecodedImage};
pub use ingest::{
    any_failed, covers, first_failure, in_producer_order, indices_valid,
    lemma_merge_is_producer_order, lemma_parallel_keeps_producer_order, merge_indexed,
    merged_in_order, DecodeError, IngestError, Produced,
};
