use crate::geometry::{geometry_of, page_geometry, PageGeometry};
use crate::image::DecodedImage;
use crate::ingest::{
    any_failed, first_failure, in_producer_order, indices_valid, lemma_parallel_keeps_producer_order,
    merge_indexed, DecodeError, IngestError, Produced,
};
use vstd::prelude::*;

verus! {

/// Resolution used until one is set: 300 dots per inch.
pub const DEFAULT_DPI: u64 = 300;

/// A configuration value the builder cannot work with.
#[derive(Clone, Copy, Debug, PartialEq, Eq, Structural)]
pub enum ConfigError {
    /// The resolution must be strictly positive.
    NonPositiveDpi { dpi: i64 },
}

/// What a builder holds, as mathematical values.
pub struct BuilderView {
    pub images: Seq<DecodedImage>,
    pub dpi: nat,
    pub title: Seq<char>,
}

impl BuilderView {
    pub open spec fn add(self, image: DecodedImage) -> BuilderView {
        BuilderView { images: self.images.push(image), ..self }
    }

    pub open spec fn extend(self, images: Seq<DecodedImage>) -> BuilderView {
        BuilderView { images: self.images + images, ..self }
    }

    pub open spec fn with_dpi(self, dpi: nat) -> BuilderView {
        BuilderView { dpi, ..self }
    }

    pub open spec fn with_title(self, title: Seq<char>) -> BuilderView {
        BuilderView { title, ..self }
    }
}

/// One page of an assembled document: an image placed at the page origin,
/// on a page exactly its printed size.
pub struct Page {
    pub geometry: PageGeometry,
    pub image: DecodedImage,
}

/// An assembled document: its title and its pages in order.
pub struct Document {
    pub title: String,
    pub pages: Vec<Page>,
}

/// The page that holds `image` printed at `dpi`.
pub open spec fn page_of(image: DecodedImage, dpi: nat) -> Page {
    Page { geometry: geometry_of(image.spec_width(), image.spec_height(), dpi), image }
}

/// The pages assembled from a builder: one per image, in the builder's order.
pub open spec fn assembled_pages(b: BuilderView) -> Seq<Page> {
    Seq::new(b.images.len(), |k: int| page_of(b.images[k], b.dpi))
}

/// `b` after adding each image of `images` in turn, one call at a time.
pub open spec fn added_one_by_one(b: BuilderView, images: Seq<DecodedImage>) -> BuilderView
    decreases images.len(),
{
    if images.len() == 0 {
        b
    } else {
        added_one_by_one(b, images.drop_last()).add(images.last())
    }
}

/// `b` after setting each resolution of `dpis` in turn.
pub open spec fn dpi_set_in_turn(b: BuilderView, dpis: Seq<nat>) -> BuilderView
    decreases dpis.len(),
{
    if dpis.len() == 0 {
        b
    } else {
        dpi_set_in_turn(b, dpis.drop_last()).with_dpi(dpis.last())
    }
}

/// Adding images one at a time appends them in call order.
pub proof fn lemma_added_one_by_one(b: BuilderView, images: Seq<DecodedImage>)
    ensures
        added_one_by_one(b, images) == b.extend(images),
    decreases images.len(),
{
    if images.len() == 0 {
        assert(b.images + images =~= b.images);
    } else {
        lemma_added_one_by_one(b, images.drop_last());
        assert(b.images + images.drop_last() + seq![images.last()] =~= b.images + images);
        assert((b.images + images.drop_last()).push(images.last()) =~= b.images + images);
    }
}

/// Images added one at a time to an empty builder give one page each: page
/// `k` holds the `k`-th image added, sized from its pixels at the builder's
/// resolution.
pub proof fn lemma_pages_follow_additions(dpi: nat, title: Seq<char>, images: Seq<DecodedImage>)
    ensures
        ({
            let pages = assembled_pages(
                added_one_by_one(BuilderView { images: Seq::empty(), dpi, title }, images),
            );
            &&& pages.len() == images.len()
            &&& forall|k: int|
                0 <= k < images.len() ==> (#[trigger] pages[k]).image == images[k] && pages[k].geometry
                    == geometry_of(images[k].spec_width(), images[k].spec_height(), dpi)
        }),
{
    let e = BuilderView { images: Seq::empty(), dpi, title };
    lemma_added_one_by_one(e, images);
    assert(e.images + images =~= images);
}

/// Only the last resolution set counts: whatever was set before, setting
/// `dpi` gives the same builder, and so the same document, as setting it
/// once; setting it again changes nothing.
pub proof fn lemma_last_dpi_wins(b: BuilderView, earlier: Seq<nat>, dpi: nat)
    ensures
        dpi_set_in_turn(b, earlier).with_dpi(dpi) == b.with_dpi(dpi),
        b.with_dpi(dpi).with_dpi(dpi) == b.with_dpi(dpi),
        assembled_pages(dpi_set_in_turn(b, earlier).with_dpi(dpi)) == assembled_pages(b.with_dpi(dpi)),
    decreases earlier.len(),
{
    if earlier.len() > 0 {
        lemma_last_dpi_wins(b, earlier.drop_last(), dpi);
    }
}

/// A batch merged by producer position is laid out as the same images
/// added in producer order: page for page, the same document.
pub proof fn lemma_parallel_pages_in_producer_order(
    b: BuilderView,
    p: Seq<Produced>,
    q: Seq<DecodedImage>,
)
    requires
        indices_valid(p),
        p.len() == q.len(),
        forall|j: int| 0 <= j < p.len() ==> (#[trigger] p[j]).1 == Ok::<DecodedImage, DecodeError>(q[p[j].0 as int]),
    ensures
        assembled_pages(b.extend(in_producer_order(p))) == assembled_pages(added_one_by_one(b, q)),
        forall|k: int|
            0 <= k < q.len() ==> (#[trigger] assembled_pages(b.extend(in_producer_order(p)))[b.images.len() + k]).image
                == q[k],
{
    lemma_parallel_keeps_producer_order(p, q);
    lemma_added_one_by_one(b, q);
    assert forall|k: int| 0 <= k < q.len() implies (#[trigger] assembled_pages(b.extend(in_producer_order(p)))[b.images.len() + k]).image
        == q[k] by {
        assert((b.images + q)[b.images.len() + k] == q[k]);
    }
}

/// Accumulates images and settings, then assembles them into a [`Document`].
pub struct ImageToPdf {
    images: Vec<DecodedImage>,
    dpi: u64,
    document_title: String,
}

impl View for ImageToPdf {
    type V = BuilderView;

    closed spec fn view(&self) -> BuilderView {
        BuilderView { images: self.images@, dpi: self.dpi as nat, title: self.document_title@ }
    }
}

impl Default for ImageToPdf {
    /// An empty builder at 300 dots per inch with an empty title.
    fn default() -> (r: ImageToPdf)
        ensures
            r@ == (BuilderView { images: Seq::empty(), dpi: DEFAULT_DPI as nat, title: Seq::empty() }),
    {
        ImageToPdf { images: Vec::new(), dpi: DEFAULT_DPI, document_title: String::new() }
    }
}

impl ImageToPdf {
    #[verifier::type_invariant]
    closed spec fn positive_dpi(&self) -> bool {
        self.dpi > 0
    }

    /// A builder over `images`, at `dpi` dots per inch, titled `document_title`.
    /// A resolution that is not strictly positive is refused.
    pub fn new(images: Vec<DecodedImage>, dpi: i64, document_title: String) -> (r: Result<
        ImageToPdf,
        ConfigError,
    >)
        ensures
            dpi <= 0 ==> r == Err::<ImageToPdf, ConfigError>(ConfigError::NonPositiveDpi { dpi }),
            dpi > 0 ==> r is Ok && r->Ok_0@ == (BuilderView {
                images: images@,
                dpi: dpi as nat,
                title: document_title@,
            }),
    {
        if dpi <= 0 {
            Err(ConfigError::NonPositiveDpi { dpi })
        } else {
            Ok(ImageToPdf { images, dpi: dpi as u64, document_title })
        }
    }

    /// Appends one image; it becomes the last page.
    pub fn add_image(self, image: DecodedImage) -> (r: ImageToPdf)
        ensures
            r@ == self@.add(image),
    {
        proof {
            use_type_invariant(&self);
        }
        let mut images = self.images;
        images.push(image);
        ImageToPdf { images, dpi: self.dpi, document_title: self.document_title }
    }

    /// Appends images in the order given.
    pub fn add_images(self, images: Vec<DecodedImage>) -> (r: ImageToPdf)
        ensures
            r@ == self@.extend(images@),
    {
        proof {
            use_type_invariant(&self);
        }
        let mut all = self.images;
        let mut more = images;
        all.append(&mut more);
        ImageToPdf { images: all, dpi: self.dpi, document_title: self.document_title }
    }

    /// Appends a batch of images produced concurrently. Each unit reports its
    /// position in producer order, and the images are appended in that order,
    /// whatever order the units finished in. The batch is refused whole when
    /// the positions are not `0..n` each once, or when any unit failed.
    pub fn add_images_par(self, produced: Vec<Produced>) -> (r: Result<ImageToPdf, IngestError>)
        ensures
            !indices_valid(produced@) ==> r == Err::<ImageToPdf, IngestError>(IngestError::BadIndices),
            indices_valid(produced@) && any_failed(produced@) ==> (r matches Err(
                IngestError::UnitFailed { index, error },
            ) && first_failure(produced@, index, error)),
            indices_valid(produced@) && !any_failed(produced@) ==> (r is Ok && r->Ok_0@
                == self@.extend(in_producer_order(produced@))),
    {
        match merge_indexed(produced) {
            Ok(images) => Ok(self.add_images(images)),
            Err(e) => Err(e),
        }
    }

    /// Replaces the resolution. A value that is not strictly positive is
    /// refused with a configuration error; it is never clamped.
    pub fn set_dpi(self, dpi: i64) -> (r: Result<ImageToPdf, ConfigError>)
        ensures
            dpi <= 0 ==> r == Err::<ImageToPdf, ConfigError>(ConfigError::NonPositiveDpi { dpi }),
            dpi > 0 ==> r is Ok && r->Ok_0@ == self@.with_dpi(dpi as nat),
    {
        if dpi <= 0 {
            Err(ConfigError::NonPositiveDpi { dpi })
        } else {
            Ok(ImageToPdf { images: self.images, dpi: dpi as u64, document_title: self.document_title })
        }
    }

    /// Replaces the document title; any text is accepted.
    pub fn set_document_title(self, document_title: String) -> (r: ImageToPdf)
        ensures
            r@ == self@.with_title(document_title@),
    {
        proof {
            use_type_invariant(&self);
        }
        ImageToPdf { images: self.images, dpi: self.dpi, document_title }
    }

    /// The resolution, in dots per inch.
    pub fn dpi(&self) -> (r: u64)
        ensures
            r == self@.dpi,
            r > 0,
    {
        proof {
            use_type_invariant(self);
        }
        self.dpi
    }

    /// The document title.
    pub fn document_title(&self) -> (r: &String)
        ensures
            r@ == self@.title,
    {
        &self.document_title
    }

    /// The images taken in so far, in page order.
    pub fn images(&self) -> (r: &Vec<DecodedImage>)
        ensures
            r@ == self@.images,
    {
        &self.images
    }

    /// Consumes the builder and lays out one page per image, in order; the
    /// title is kept.
    pub fn create(self) -> (r: Document)
        ensures
            r.title@ == self@.title,
            r.pages@ == assembled_pages(self@),
    {
        proof {
            use_type_invariant(&self);
        }
        let dpi = self.dpi;
        let ghost images_model = self.images@;
        let mut pages: Vec<Page> = Vec::new();
        for image in it: self.images.into_iter()
            invariant
                dpi > 0,
                it.seq() == images_model,
                pages@.len() == it.index(),
                forall|k: int| 0 <= k < pages@.len() ==> pages@[k] == page_of(images_model[k], dpi as nat),
        {
            let geometry = page_geometry(image.width(), image.height(), dpi);
            pages.push(Page { geometry, image });
        }
        assert(pages@ =~= assembled_pages(self@));
        Document { title: self.document_title, pages }
    }
}

} // verus!
