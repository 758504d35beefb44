//! The drawing context: every operation is handed to the spawner and runs
//! behind the fault barrier.

use crate::command::DrawCall;
use crate::command::PathDrawingMode;
use crate::command::Point;
use crate::command::Rect;
use crate::command::Scalar;
use crate::command::Size;
use crate::error::barrier;
use crate::error::objc_try;
use crate::error::Error;
use crate::error::Fault;
use crate::image::Image;
use crate::spawner::Spawner;
use crate::util::share;
use crate::util::SyncContainer;
use orphan_crippler::Receiver;
use std::ops::Deref;
use std::sync::Arc;
use vstd::prelude::*;
use vstd::string::StringExecFns;

verus! {

/// The completion handle of a drawing operation: it delivers success, or the
/// error that the backend's fault became.
pub type Completion = Receiver<Result<(), Error>>;

/// `r` is what running `call` on `backend` behind the fault barrier can
/// yield: the backend was called with exactly `call`, and `r` is success if it
/// came back, the classified fault if it raised one.
pub open spec fn performed<I, B: Fn(DrawCall<I>) -> Result<(), Fault>>(
    backend: B,
    call: DrawCall<I>,
    r: Result<(), Error>,
) -> bool {
    exists|outcome: Result<(), Fault>| #[trigger]
        call_ensures(backend, (call,), outcome) && barrier(outcome, r)
}

/// The unit of work behind every operation: makes one call into the backend
/// and passes what came of it through the fault barrier.
///
/// `backend` reports a fault raised during the call as `Err`; this function
/// never lets one escape.
pub fn perform<I, B: Fn(DrawCall<I>) -> Result<(), Fault>>(
    backend: &B,
    call: DrawCall<I>,
) -> (r: Result<(), Error>)
    requires
        call_requires(*backend, (call,)),
    ensures
        performed(*backend, call, r),
{
    let outcome = backend(call);
    objc_try(outcome)
}

/// The debug form of a context whose spawner's own debug text is `spawner`.
/// The backend handle is opaque and shows as its name alone.
pub open spec fn context_debug(spawner: Seq<char>) -> Seq<char> {
    "Context { inner: CGContext, spawner: "@ + spawner + " }"@
}

/// Lays out the debug form of a context around the debug text of its
/// spawner.
pub fn render_debug(spawner: &str) -> (r: String)
    ensures
        r@ == context_debug(spawner@),
{
    let mut out = String::from_str("Context { inner: CGContext, spawner: ");
    out.append(spawner);
    out.append(" }");
    out
}

/// `format!` with `{:?}`: the debug text that the value's own `Debug` gives.
/// Nothing is known of it here.
#[verifier::external_body]
fn debug_of<S: core::fmt::Debug>(value: &S) -> (r: String) {
    format!("{:?}", value)
}

/// The context in which drawing takes place.
///
/// It holds a share of one backend handle and a spawner. No operation touches
/// the handle on the calling thread: each one captures a share of the handle,
/// submits the backend call to the spawner and returns the completion handle
/// at once.
pub struct Context<B, S> {
    inner: SyncContainer<Arc<B>>,
    spawner: S,
}

impl<B, S> Context<B, S> {
    /// The backend handle.
    pub closed spec fn spec_inner(&self) -> B {
        *self.inner@
    }

    /// The spawner.
    pub closed spec fn spec_spawner(&self) -> S {
        self.spawner
    }

    /// The spawner that the operations submit to.
    #[inline]
    pub fn spawner(&self) -> (r: &S)
        ensures
            *r == self.spec_spawner(),
    {
        &self.spawner
    }

    /// The backend handle that the operations call into.
    #[inline]
    pub fn inner(&self) -> (r: &B)
        ensures
            *r == self.spec_inner(),
    {
        &**self.inner.deref()
    }

    /// One more share of the backend handle, to be moved into a unit of work.
    #[inline]
    fn context(&self) -> (r: SyncContainer<Arc<B>>)
        ensures
            *r@ == self.spec_inner(),
    {
        SyncContainer::new(share(self.inner.deref()))
    }
}

impl<B, S: core::fmt::Debug> Context<B, S> {
    /// The context for debugging: the fixed name of the backend handle and
    /// whatever the spawner shows of itself.
    pub fn debug_string(&self) -> (r: String)
        ensures
            exists|spawner: Seq<char>| r@ == context_debug(spawner),
    {
        let spawner = debug_of(&self.spawner);
        render_debug(spawner.as_str())
    }
}

impl<B, S: Clone> Clone for Context<B, S> {
    /// A second context over the same backend handle, with a clone of the
    /// spawner.
    #[inline]
    fn clone(&self) -> (r: Self)
        ensures
            r.spec_inner() == self.spec_inner(),
            cloned(self.spec_spawner(), r.spec_spawner()),
    {
        Context { inner: self.context(), spawner: self.spawner.clone() }
    }
}

impl<B: Send + Sync + 'static, S: Spawner> Context<B, S> {
    /// Whether the backend takes `call`.
    pub open spec fn accepts<I>(&self, call: DrawCall<I>) -> bool where
        B: Fn(DrawCall<I>) -> Result<(), Fault>,
    {
        call_requires(self.spec_inner(), (call,))
    }

    /// `handle` stands for one run of `call` on the backend, behind the fault
    /// barrier: whatever it delivers is what that run yielded, and it
    /// delivers no second value.
    pub open spec fn resolves<I>(&self, handle: Completion, call: DrawCall<I>) -> bool where
        B: Fn(DrawCall<I>) -> Result<(), Fault>,
    {
        &&& forall|v: Result<(), Error>| #[trigger]
            self.spec_spawner().delivers(handle, v) ==> performed(self.spec_inner(), call, v)
        &&& forall|v: Result<(), Error>, w: Result<(), Error>|
            {
                &&& #[trigger] self.spec_spawner().delivers(handle, v)
                &&& #[trigger] self.spec_spawner().delivers(handle, w)
            } ==> v == w
    }

    /// However many operations are submitted, each one resolves once, and to
    /// the outcome of its own call. Given the handles that the calls were
    /// submitted for, one for one, and for each handle a value that it
    /// delivers: every such value is what its own call yielded behind the
    /// fault barrier, success or the classified fault that this call raised,
    /// and it is the only value that its handle delivers.
    pub proof fn lemma_each_resolves_once<I>(
        self,
        calls: Seq<DrawCall<I>>,
        handles: Seq<Completion>,
        results: Seq<Result<(), Error>>,
    ) where B: Fn(DrawCall<I>) -> Result<(), Fault>
        requires
            handles.len() == calls.len(),
            results.len() == calls.len(),
            forall|i: int| 0 <= i < calls.len() ==> self.resolves(handles[i], calls[i]),
            forall|i: int|
                0 <= i < calls.len() ==> self.spec_spawner().delivers(handles[i], results[i]),
        ensures
            forall|i: int|
                0 <= i < calls.len() ==> performed(
                    self.spec_inner(),
                    calls[i],
                    #[trigger] results[i],
                ),
            forall|i: int, other: Result<(), Error>|
                0 <= i < calls.len() && #[trigger] self.spec_spawner().delivers(handles[i], other)
                    ==> other == results[i],
    {
    }

    /// Builds a context over a backend handle and a spawner.
    ///
    /// The caller vouches for the handle: that it is valid, of the backend's
    /// type, and stays so for as long as this context or a clone of it is in
    /// use.
    #[inline]
    pub fn from_raw(inner: B, spawner: S) -> (r: Self)
        ensures
            r.spec_inner() == inner,
            r.spec_spawner() == spawner,
    {
        Context { inner: SyncContainer::new(Arc::new(inner)), spawner }
    }

    /// Submits one backend call: captures a share of the handle, gives the
    /// spawner the unit of work that performs `call` behind the barrier, and
    /// returns the spawner's handle without waiting.
    pub fn submit<I>(&self, call: DrawCall<I>) -> (r: Completion) where
        I: Send + Sync + 'static,
        B: Fn(DrawCall<I>) -> Result<(), Fault>,
        requires
            self.accepts(call),
        ensures
            self.resolves(r, call),
    {
        let cx = self.context();
        let work = move || -> (o: Result<(), Error>)
            requires
                call_requires(*cx@, (call,)),
            ensures
                performed(*cx@, call, o),
        {
            perform(&**cx.deref(), call)
        };
        self.spawner.spawn_blocking(work)
    }

    /// Sets the colour that fills are painted in, from red, green, blue and
    /// alpha components.
    #[inline]
    pub fn set_rgb_fill_color<I>(
        &self,
        r: Scalar,
        g: Scalar,
        b: Scalar,
        a: Scalar,
    ) -> (handle: Completion) where I: Send + Sync + 'static, B: Fn(DrawCall<I>) -> Result<(), Fault>
        requires
            self.accepts((DrawCall::<I>::SetRgbFillColor { r, g, b, a })),
        ensures
            self.resolves(handle, (DrawCall::<I>::SetRgbFillColor { r, g, b, a })),
    {
        self.submit(DrawCall::SetRgbFillColor { r, g, b, a })
    }

    /// Sets the colour that strokes are painted in, from red, green, blue
    /// and alpha components.
    #[inline]
    pub fn set_rgb_stroke_color<I>(
        &self,
        r: Scalar,
        g: Scalar,
        b: Scalar,
        a: Scalar,
    ) -> (handle: Completion) where I: Send + Sync + 'static, B: Fn(DrawCall<I>) -> Result<(), Fault>
        requires
            self.accepts((DrawCall::<I>::SetRgbStrokeColor { r, g, b, a })),
        ensures
            self.resolves(handle, (DrawCall::<I>::SetRgbStrokeColor { r, g, b, a })),
    {
        self.submit(DrawCall::SetRgbStrokeColor { r, g, b, a })
    }

    /// Pushes a copy of the graphics state.
    #[inline]
    pub fn save<I>(
        &self,
    ) -> (handle: Completion) where I: Send + Sync + 'static, B: Fn(DrawCall<I>) -> Result<(), Fault>
        requires
            self.accepts(DrawCall::<I>::Save),
        ensures
            self.resolves(handle, DrawCall::<I>::Save),
    {
        self.submit(DrawCall::Save)
    }

    /// Pops the graphics state.
    #[inline]
    pub fn restore<I>(
        &self,
    ) -> (handle: Completion) where I: Send + Sync + 'static, B: Fn(DrawCall<I>) -> Result<(), Fault>
        requires
            self.accepts(DrawCall::<I>::Restore),
        ensures
            self.resolves(handle, DrawCall::<I>::Restore),
    {
        self.submit(DrawCall::Restore)
    }

    /// Begins a new subpath at `(x, y)`.
    #[inline]
    pub fn move_to_point<I>(
        &self,
        x: Scalar,
        y: Scalar,
    ) -> (handle: Completion) where I: Send + Sync + 'static, B: Fn(DrawCall<I>) -> Result<(), Fault>
        requires
            self.accepts((DrawCall::<I>::MoveToPoint { x, y })),
        ensures
            self.resolves(handle, (DrawCall::<I>::MoveToPoint { x, y })),
    {
        self.submit(DrawCall::MoveToPoint { x, y })
    }

    /// Appends a straight line to `(x, y)`.
    #[inline]
    pub fn add_line_to_point<I>(
        &self,
        x: Scalar,
        y: Scalar,
    ) -> (handle: Completion) where I: Send + Sync + 'static, B: Fn(DrawCall<I>) -> Result<(), Fault>
        requires
            self.accepts((DrawCall::<I>::AddLineToPoint { x, y })),
        ensures
            self.resolves(handle, (DrawCall::<I>::AddLineToPoint { x, y })),
    {
        self.submit(DrawCall::AddLineToPoint { x, y })
    }

    /// Appends a cubic curve to `(x, y)` with the two control points given.
    #[inline]
    pub fn add_curve_to_point<I>(
        &self,
        cp1x: Scalar,
        cp1y: Scalar,
        cp2x: Scalar,
        cp2y: Scalar,
        x: Scalar,
        y: Scalar,
    ) -> (handle: Completion) where I: Send + Sync + 'static, B: Fn(DrawCall<I>) -> Result<(), Fault>
        requires
            self.accepts((DrawCall::<I>::AddCurveToPoint { cp1x, cp1y, cp2x, cp2y, x, y })),
        ensures
            self.resolves(handle, (DrawCall::<I>::AddCurveToPoint { cp1x, cp1y, cp2x, cp2y, x, y })),
    {
        self.submit(DrawCall::AddCurveToPoint { cp1x, cp1y, cp2x, cp2y, x, y })
    }

    /// Closes the current subpath.
    #[inline]
    pub fn close_path<I>(
        &self,
    ) -> (handle: Completion) where I: Send + Sync + 'static, B: Fn(DrawCall<I>) -> Result<(), Fault>
        requires
            self.accepts(DrawCall::<I>::ClosePath),
        ensures
            self.resolves(handle, DrawCall::<I>::ClosePath),
    {
        self.submit(DrawCall::ClosePath)
    }

    /// Fills the rectangle at `(x, y)` of the given extent.
    #[inline]
    pub fn fill_rect<I>(
        &self,
        x: Scalar,
        y: Scalar,
        width: Scalar,
        height: Scalar,
    ) -> (handle: Completion) where I: Send + Sync + 'static, B: Fn(DrawCall<I>) -> Result<(), Fault>
        requires
            self.accepts(
                (DrawCall::<I>::FillRect { rect: Rect { origin: Point { x, y }, size: Size { width, height } } }),
            ),
        ensures
            self.resolves(
                handle,
                (DrawCall::<I>::FillRect { rect: Rect { origin: Point { x, y }, size: Size { width, height } } }),
            ),
    {
        self.submit(DrawCall::FillRect { rect: Rect::new(x, y, width, height) })
    }

    /// Strokes the rectangle at `(x, y)` of the given extent.
    #[inline]
    pub fn stroke_rect<I>(
        &self,
        x: Scalar,
        y: Scalar,
        width: Scalar,
        height: Scalar,
    ) -> (handle: Completion) where I: Send + Sync + 'static, B: Fn(DrawCall<I>) -> Result<(), Fault>
        requires
            self.accepts(
                (DrawCall::<I>::StrokeRect { rect: Rect { origin: Point { x, y }, size: Size { width, height } } }),
            ),
        ensures
            self.resolves(
                handle,
                (DrawCall::<I>::StrokeRect { rect: Rect { origin: Point { x, y }, size: Size { width, height } } }),
            ),
    {
        self.submit(DrawCall::StrokeRect { rect: Rect::new(x, y, width, height) })
    }

    /// Fills the ellipse bounded by the rectangle at `(x, y)` of the given
    /// extent.
    #[inline]
    pub fn fill_ellipse_in_rect<I>(
        &self,
        x: Scalar,
        y: Scalar,
        width: Scalar,
        height: Scalar,
    ) -> (handle: Completion) where I: Send + Sync + 'static, B: Fn(DrawCall<I>) -> Result<(), Fault>
        requires
            self.accepts(
                (DrawCall::<I>::FillEllipseInRect { rect: Rect { origin: Point { x, y }, size: Size { width, height } } }),
            ),
        ensures
            self.resolves(
                handle,
                (DrawCall::<I>::FillEllipseInRect { rect: Rect { origin: Point { x, y }, size: Size { width, height } } }),
            ),
    {
        self.submit(DrawCall::FillEllipseInRect { rect: Rect::new(x, y, width, height) })
    }

    /// Strokes the ellipse bounded by the rectangle at `(x, y)` of the given
    /// extent.
    #[inline]
    pub fn stroke_ellipse_in_rect<I>(
        &self,
        x: Scalar,
        y: Scalar,
        width: Scalar,
        height: Scalar,
    ) -> (handle: Completion) where I: Send + Sync + 'static, B: Fn(DrawCall<I>) -> Result<(), Fault>
        requires
            self.accepts(
                (DrawCall::<I>::StrokeEllipseInRect { rect: Rect { origin: Point { x, y }, size: Size { width, height } } }),
            ),
        ensures
            self.resolves(
                handle,
                (DrawCall::<I>::StrokeEllipseInRect { rect: Rect { origin: Point { x, y }, size: Size { width, height } } }),
            ),
    {
        self.submit(DrawCall::StrokeEllipseInRect { rect: Rect::new(x, y, width, height) })
    }

    /// Forces pending drawing out to the destination.
    #[inline]
    pub fn flush<I>(
        &self,
    ) -> (handle: Completion) where I: Send + Sync + 'static, B: Fn(DrawCall<I>) -> Result<(), Fault>
        requires
            self.accepts(DrawCall::<I>::Flush),
        ensures
            self.resolves(handle, DrawCall::<I>::Flush),
    {
        self.submit(DrawCall::Flush)
    }

    /// Sets the width that strokes are painted with.
    #[inline]
    pub fn set_line_width<I>(
        &self,
        width: Scalar,
    ) -> (handle: Completion) where I: Send + Sync + 'static, B: Fn(DrawCall<I>) -> Result<(), Fault>
        requires
            self.accepts((DrawCall::<I>::SetLineWidth { width })),
        ensures
            self.resolves(handle, (DrawCall::<I>::SetLineWidth { width })),
    {
        self.submit(DrawCall::SetLineWidth { width })
    }

    /// Fills the current path.
    #[inline]
    pub fn fill_path<I>(
        &self,
    ) -> (handle: Completion) where I: Send + Sync + 'static, B: Fn(DrawCall<I>) -> Result<(), Fault>
        requires
            self.accepts(DrawCall::<I>::FillPath),
        ensures
            self.resolves(handle, DrawCall::<I>::FillPath),
    {
        self.submit(DrawCall::FillPath)
    }

    /// Strokes the current path.
    #[inline]
    pub fn stroke_path<I>(
        &self,
    ) -> (handle: Completion) where I: Send + Sync + 'static, B: Fn(DrawCall<I>) -> Result<(), Fault>
        requires
            self.accepts(DrawCall::<I>::StrokePath),
        ensures
            self.resolves(handle, DrawCall::<I>::StrokePath),
    {
        self.submit(DrawCall::StrokePath)
    }

    /// Paints the current path in the given mode.
    #[inline]
    pub fn draw_path<I>(
        &self,
        options: PathDrawingMode,
    ) -> (handle: Completion) where I: Send + Sync + 'static, B: Fn(DrawCall<I>) -> Result<(), Fault>
        requires
            self.accepts((DrawCall::<I>::DrawPath { mode: options })),
        ensures
            self.resolves(handle, (DrawCall::<I>::DrawPath { mode: options })),
    {
        self.submit(DrawCall::DrawPath { mode: options })
    }

    /// Draws `image` into the rectangle at `(x, y)` of the given extent. The
    /// unit of work holds a share of the image handle of its own.
    #[inline]
    pub fn draw_image<I, H, T>(
        &self,
        x: Scalar,
        y: Scalar,
        width: Scalar,
        height: Scalar,
        image: &Image<I, H, T>,
    ) -> (handle: Completion) where I: Send + Sync + 'static, B: Fn(DrawCall<I>) -> Result<(), Fault>
        requires
            image.image_live(),
            self.accepts(
                (DrawCall::<I>::DrawImage {
                    rect: Rect { origin: Point { x, y }, size: Size { width, height } },
                    image: image.handle(),
                }),
            ),
        ensures
            self.resolves(
                handle,
                (DrawCall::<I>::DrawImage {
                    rect: Rect { origin: Point { x, y }, size: Size { width, height } },
                    image: image.handle(),
                }),
            ),
    {
        let img = share(image.image().deref());
        self.submit(DrawCall::DrawImage { rect: Rect::new(x, y, width, height), image: img })
    }
}

} // verus!
