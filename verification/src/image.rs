//! An image: a native handle built over a data provider.

use crate::data_provider::DataProvider;
use crate::util::SyncContainer;
use std::sync::Arc;
use vstd::prelude::*;

verus! {

/// The fixed description of an image's pixels. None of it is checked against
/// the buffer; the backend is the judge of that.
#[derive(Clone, Copy, Debug, PartialEq, Eq, Structural)]
pub struct ImageInfo {
    pub width: usize,
    pub height: usize,
    pub bits_per_component: usize,
    pub bits_per_pixel: usize,
    pub bytes_per_row: usize,
    pub bitmap_info: u32,
    pub should_interpolate: bool,
    pub rendering_intent: u32,
}

/// An image.
///
/// It owns the native image handle and the provider that the handle was built
/// over. The image handle depends on the provider's handle, which depends on
/// the buffer, and teardown runs against that chain: image handle, provider
/// handle, buffer.
pub struct Image<I, H, T> {
    image: Option<SyncContainer<Arc<I>>>,
    data_provider: DataProvider<H, T>,
}

impl<I, H, T> Image<I, H, T> {
    /// Whether the image still holds its handle.
    pub closed spec fn image_live(&self) -> bool {
        self.image is Some
    }

    /// The image handle, while the image holds it.
    pub closed spec fn handle(&self) -> Arc<I>
        recommends
            self.image_live(),
    {
        self.image->0@
    }

    /// The provider that the image was built over.
    pub closed spec fn data_provider(&self) -> DataProvider<H, T> {
        self.data_provider
    }

    /// The image as `release` leaves it: without its handle, with its
    /// provider as it was.
    pub closed spec fn released(self) -> Self {
        Image { image: None, data_provider: self.data_provider }
    }

    /// Releasing takes the image handle and nothing else.
    pub proof fn lemma_released(self)
        ensures
            !self.released().image_live(),
            self.released().data_provider() == self.data_provider(),
            self.released().released() == self.released(),
    {
    }

    /// Teardown runs from the image down to the buffer. When the image
    /// handle is released, the provider still holds its handle and its
    /// buffer; when the provider's handle is released after that, the buffer
    /// is still held, and it is the buffer that the image started with.
    pub proof fn lemma_teardown_order(self)
        requires
            self.image_live(),
            self.data_provider().handle_live(),
        ensures
            !self.released().image_live(),
            self.released().data_provider().handle_live(),
            self.released().data_provider().handle() == self.data_provider().handle(),
            self.released().data_provider().buffer() == self.data_provider().buffer(),
            !self.released().data_provider().released().handle_live(),
            self.released().data_provider().released().buffer() == self.data_provider().buffer(),
    {
        self.lemma_released();
        self.data_provider().lemma_released();
    }

    /// Tells whether the image still holds its handle.
    #[inline]
    pub fn is_live(&self) -> (b: bool)
        ensures
            b == self.image_live(),
    {
        self.image.is_some()
    }

    /// The image handle.
    #[inline]
    pub(crate) fn image(&self) -> (r: &SyncContainer<Arc<I>>)
        requires
            self.image_live(),
        ensures
            r@ == self.handle(),
    {
        match &self.image {
            Some(image) => image,
            None => vstd::pervasive::unreached(),
        }
    }

    /// The first phase of teardown: lets the image handle go and leaves the
    /// provider untouched. Releasing twice is releasing once.
    #[inline]
    pub fn release(&mut self)
        ensures
            *final(self) == old(self).released(),
            !final(self).image_live(),
            final(self).data_provider() == old(self).data_provider(),
        opens_invariants none
        no_unwind
    {
        self.image = None;
    }
}

impl<I, H, T: Send + Sync> Image<I, H, T> {
    /// Builds an image over `provider`. The backend builds the handle from
    /// the description, the colour space and the provider's handle, `make`
    /// being the backend's constructor; every value reaches it as given. The
    /// image keeps the provider.
    #[inline]
    pub fn new<CS, F: FnOnce(ImageInfo, &CS, &H) -> I>(
        width: usize,
        height: usize,
        bits_per_component: usize,
        bits_per_pixel: usize,
        bytes_per_row: usize,
        colorspace: &CS,
        bitmap_info: u32,
        provider: DataProvider<H, T>,
        should_interpolate: bool,
        rendering_intent: u32,
        make: F,
    ) -> (r: Self)
        requires
            provider.handle_live(),
            call_requires(
                make,
                (
                    (ImageInfo {
                        width,
                        height,
                        bits_per_component,
                        bits_per_pixel,
                        bytes_per_row,
                        bitmap_info,
                        should_interpolate,
                        rendering_intent,
                    }),
                    colorspace,
                    &provider.handle(),
                ),
            ),
        ensures
            r.image_live(),
            r.data_provider() == provider,
            call_ensures(
                make,
                (
                    (ImageInfo {
                        width,
                        height,
                        bits_per_component,
                        bits_per_pixel,
                        bytes_per_row,
                        bitmap_info,
                        should_interpolate,
                        rendering_intent,
                    }),
                    colorspace,
                    &provider.handle(),
                ),
                *r.handle(),
            ),
    {
        let info = ImageInfo {
            width,
            height,
            bits_per_component,
            bits_per_pixel,
            bytes_per_row,
            bitmap_info,
            should_interpolate,
            rendering_intent,
        };
        let image = make(info, colorspace, provider.provider());
        Image { image: Some(SyncContainer::new(Arc::new(image))), data_provider: provider }
    }
}

impl<I, H, T> Drop for Image<I, H, T> {
    /// Teardown: the image handle is released here, while the provider is
    /// whole; the provider then tears itself down by its own rule.
    #[inline]
    fn drop(&mut self)
        ensures
            *final(self) == old(self).released(),
            !final(self).image_live(),
            final(self).data_provider() == old(self).data_provider(),
        opens_invariants none
        no_unwind
    {
        self.release();
    }
}

} // verus!
