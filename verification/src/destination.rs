//! Jump targets: where a link or the document's opening view lands on a
//! page, and how the viewer should fit it.

use vstd::prelude::*;

verus! {

/// How a destination asks the viewer to fit the page.  Coordinates are
/// in thousandths of a point, the zoom in thousandths.
#[derive(Clone, Copy, Debug, PartialEq, Eq, Structural)]
pub enum DestinationFit {
    /// Show the given position at the given zoom.
    Xyz(i64, i64, i64),
    /// Fit the whole page in the window.
    Fit,
    /// Fit the page width, with the given top edge.
    FitH(i64),
    /// Fit the page height, with the given left edge.
    FitV(i64),
    /// Fit the given rectangle: left, bottom, right, top.
    FitR(i64, i64, i64, i64),
    /// Fit the page's bounding box.
    FitB,
    /// Fit the bounding box width, with the given top edge.
    FitBH(i64),
    /// Fit the bounding box height, with the given top edge.
    FitBV(i64),
}

/// A destination under construction: the page it belongs to, and at
/// most one fit, the last one set.
#[derive(Clone, Copy, Debug, PartialEq, Eq, Structural)]
pub struct Destination {
    page_id: usize,
    fit_val: Option<DestinationFit>,
}

impl Destination {
    /// The index of the page this destination belongs to, in the
    /// owning document.
    pub closed spec fn page(&self) -> usize {
        self.page_id
    }

    /// The fit recorded so far.
    pub closed spec fn fit(&self) -> Option<DestinationFit> {
        self.fit_val
    }

    pub(crate) fn new(page_id: usize) -> (r: Destination)
        ensures
            r.fit() is None,
            r.page() == page_id,
    {
        Destination { page_id, fit_val: None }
    }

    /// The index of the page this destination belongs to.
    pub fn owner_page(&self) -> (r: usize)
        ensures
            r == self.page(),
    {
        self.page_id
    }

    /// The fit recorded so far.
    pub fn current_fit(&self) -> (r: Option<DestinationFit>)
        ensures
            r == self.fit(),
    {
        self.fit_val
    }

    /// Show the given position at the given zoom.
    pub fn set_xyz(&mut self, left: i64, top: i64, zoom: i64) -> (r: Result<(), crate::error::Error>)
        ensures
            r is Ok,
            final(self).fit() == Some(DestinationFit::Xyz(left, top, zoom)),
            final(self).page() == old(self).page(),
    {
        self.fit_val = Some(DestinationFit::Xyz(left, top, zoom));
        Ok(())
    }

    /// Fit the whole page in the window.
    pub fn set_fit(&mut self) -> (r: Result<(), crate::error::Error>)
        ensures
            r is Ok,
            final(self).fit() == Some(DestinationFit::Fit),
            final(self).page() == old(self).page(),
    {
        self.fit_val = Some(DestinationFit::Fit);
        Ok(())
    }

    /// Fit the page width, with the given top edge.
    pub fn set_fit_h(&mut self, top: i64) -> (r: Result<(), crate::error::Error>)
        ensures
            r is Ok,
            final(self).fit() == Some(DestinationFit::FitH(top)),
            final(self).page() == old(self).page(),
    {
        self.fit_val = Some(DestinationFit::FitH(top));
        Ok(())
    }

    /// Fit the page height, with the given left edge.
    pub fn set_fit_v(&mut self, left: i64) -> (r: Result<(), crate::error::Error>)
        ensures
            r is Ok,
            final(self).fit() == Some(DestinationFit::FitV(left)),
            final(self).page() == old(self).page(),
    {
        self.fit_val = Some(DestinationFit::FitV(left));
        Ok(())
    }

    /// Fit the given rectangle.
    pub fn set_fit_r(&mut self, left: i64, bottom: i64, right: i64, top: i64) -> (r: Result<
        (),
        crate::error::Error,
    >)
        ensures
            r is Ok,
            final(self).fit() == Some(DestinationFit::FitR(left, bottom, right, top)),
            final(self).page() == old(self).page(),
    {
        self.fit_val = Some(DestinationFit::FitR(left, bottom, right, top));
        Ok(())
    }

    /// Fit the page's bounding box.
    pub fn set_fit_b(&mut self) -> (r: Result<(), crate::error::Error>)
        ensures
            r is Ok,
            final(self).fit() == Some(DestinationFit::FitB),
            final(self).page() == old(self).page(),
    {
        self.fit_val = Some(DestinationFit::FitB);
        Ok(())
    }

    /// Fit the bounding box width, with the given top edge.
    pub fn set_fit_bh(&mut self, top: i64) -> (r: Result<(), crate::error::Error>)
        ensures
            r is Ok,
            final(self).fit() == Some(DestinationFit::FitBH(top)),
            final(self).page() == old(self).page(),
    {
        self.fit_val = Some(DestinationFit::FitBH(top));
        Ok(())
    }

    /// Fit the bounding box height, with the given top edge.
    pub fn set_fit_bv(&mut self, top: i64) -> (r: Result<(), crate::error::Error>)
        ensures
            r is Ok,
            final(self).fit() == Some(DestinationFit::FitBV(top)),
            final(self).page() == old(self).page(),
    {
        self.fit_val = Some(DestinationFit::FitBV(top));
        Ok(())
    }
}

} // verus!
