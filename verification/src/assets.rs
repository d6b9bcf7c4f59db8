//! The registered assets: which ticker names which asset, and with how many
//! decimal places its amounts are written.

use vstd::prelude::*;
use crate::error::Error;
use crate::ids::AssetId;

verus! {

/// The greatest number of decimal places an asset may have.
pub const MAX_PRECISION: u8 = 8;

/// What a ticker resolves to.
#[derive(Copy, Clone, PartialEq, Eq, Structural, Debug)]
pub struct Asset {
    pub asset_id: AssetId,
    pub precision: u8,
}

/// One registered asset.
#[derive(Clone, PartialEq, Eq, Debug)]
pub struct Listing {
    pub ticker: String,
    pub asset_id: AssetId,
    pub precision: u8,
}

impl Listing {
    /// The asset that the listing names.
    pub open spec fn asset(self) -> Asset {
        Asset { asset_id: self.asset_id, precision: self.precision }
    }
}

/// The registered assets, in the order of their registration.
pub struct TickerLoader {
    pub listings: Vec<Listing>,
}

impl TickerLoader {
    /// Whether position `i` holds the first listing under the ticker.
    pub open spec fn first_by_ticker(self, ticker: Seq<char>, i: int) -> bool {
        &&& 0 <= i < self.listings@.len()
        &&& self.listings@[i].ticker@ == ticker
        &&& forall|j: int| 0 <= j < i ==> self.listings@[j].ticker@ != ticker
    }

    /// Whether position `i` holds the first listing of the asset.
    pub open spec fn first_by_asset(self, asset_id: AssetId, i: int) -> bool {
        &&& 0 <= i < self.listings@.len()
        &&& self.listings@[i].asset_id == asset_id
        &&& forall|j: int| 0 <= j < i ==> self.listings@[j].asset_id != asset_id
    }

    /// Whether some listing bears the ticker.
    pub open spec fn knows(self, ticker: Seq<char>) -> bool {
        exists|i: int| 0 <= i < self.listings@.len() && self.listings@[i].ticker@ == ticker
    }

    /// Whether some listing is of the asset.
    pub open spec fn lists(self, asset_id: AssetId) -> bool {
        exists|i: int| 0 <= i < self.listings@.len() && self.listings@[i].asset_id == asset_id
    }

    /// The asset under a known ticker: that of the first listing bearing it.
    pub open spec fn resolve(self, ticker: Seq<char>) -> Asset {
        self.listings@[choose|i: int| self.first_by_ticker(ticker, i)].asset()
    }

    /// The ticker of a listed asset: that of its first listing.
    pub open spec fn ticker_of(self, asset_id: AssetId) -> String {
        self.listings@[choose|i: int| self.first_by_asset(asset_id, i)].ticker
    }

    /// What `register` keeps: no precision above the greatest, no ticker and
    /// no asset listed twice.
    pub open spec fn wf(self) -> bool {
        &&& forall|i: int|
            0 <= i < self.listings@.len() ==> (#[trigger] self.listings@[i]).precision
                <= MAX_PRECISION
        &&& forall|i: int, j: int|
            0 <= i < j < self.listings@.len() ==> self.listings@[i].ticker@
                != self.listings@[j].ticker@ && self.listings@[i].asset_id
                != self.listings@[j].asset_id
    }

    /// At most one position is the first under a ticker.
    pub proof fn lemma_first_by_ticker(self, ticker: Seq<char>, i: int)
        requires
            self.first_by_ticker(ticker, i),
        ensures
            self.knows(ticker),
            self.resolve(ticker) == self.listings@[i].asset(),
    {
        let c = choose|c: int| self.first_by_ticker(ticker, c);
        if c < i {
        } else if i < c {
        }
    }

    /// At most one position is the first of an asset.
    pub proof fn lemma_first_by_asset(self, asset_id: AssetId, i: int)
        requires
            self.first_by_asset(asset_id, i),
        ensures
            self.lists(asset_id),
            self.ticker_of(asset_id) == self.listings@[i].ticker,
    {
        let c = choose|c: int| self.first_by_asset(asset_id, c);
        if c < i {
        } else if i < c {
        }
    }

    /// A registry without listings.
    pub fn new() -> (r: Self)
        ensures
            r.listings@.len() == 0,
            r.wf(),
    {
        TickerLoader { listings: Vec::new() }
    }

    /// Whether the ticker is registered.
    pub fn has_ticker(&self, ticker: &String) -> (r: bool)
        ensures
            r == self.knows(ticker@),
    {
        self.find_ticker(ticker).is_some()
    }

    /// The position of the first listing under a ticker.
    fn find_ticker(&self, ticker: &String) -> (r: Option<usize>)
        ensures
            match r {
                Some(i) => self.first_by_ticker(ticker@, i as int),
                None => !self.knows(ticker@),
            },
    {
        let n = self.listings.len();
        let mut i: usize = 0;
        while i < n
            invariant
                n == self.listings@.len(),
                i <= n,
                forall|j: int| 0 <= j < i ==> self.listings@[j].ticker@ != ticker@,
            decreases n - i,
        {
            if self.listings[i].ticker == *ticker {
                return Some(i);
            }
            i += 1;
        }
        None
    }

    /// The position of the first listing of an asset.
    fn find_asset(&self, asset_id: &AssetId) -> (r: Option<usize>)
        ensures
            match r {
                Some(i) => self.first_by_asset(*asset_id, i as int),
                None => !self.lists(*asset_id),
            },
    {
        let n = self.listings.len();
        let mut i: usize = 0;
        while i < n
            invariant
                n == self.listings@.len(),
                i <= n,
                forall|j: int| 0 <= j < i ==> self.listings@[j].asset_id != *asset_id,
            decreases n - i,
        {
            if self.listings[i].asset_id.same(asset_id) {
                return Some(i);
            }
            i += 1;
        }
        None
    }

    /// The ticker under which an asset is registered, if it is.
    pub fn ticker(&self, asset_id: &AssetId) -> (r: Option<&String>)
        ensures
            match r {
                Some(t) => self.lists(*asset_id) && *t == self.ticker_of(*asset_id),
                None => !self.lists(*asset_id),
            },
    {
        match self.find_asset(asset_id) {
            Some(i) => {
                proof {
                    self.lemma_first_by_asset(*asset_id, i as int);
                }
                Some(&self.listings[i].ticker)
            },
            None => None,
        }
    }

    /// Adds a listing. Refuses, and leaves the registry as it was, where the
    /// precision is above the greatest or the ticker or the asset is listed
    /// already.
    pub fn register(&mut self, ticker: String, asset_id: AssetId, precision: u8) -> (r: bool)
        ensures
            r == (precision <= MAX_PRECISION && !old(self).knows(ticker@) && !old(self).lists(
                asset_id,
            )),
            r ==> final(self).listings@ == old(self).listings@.push(
                Listing { ticker, asset_id, precision },
            ),
            !r ==> *final(self) == *old(self),
            old(self).wf() ==> final(self).wf(),
    {
        if precision > MAX_PRECISION {
            return false;
        }
        if self.find_ticker(&ticker).is_some() {
            return false;
        }
        if self.find_asset(&asset_id).is_some() {
            return false;
        }
        self.listings.push(Listing { ticker, asset_id, precision });
        true
    }
}

/// Resolves a ticker to its asset, or reports it as unknown.
pub fn try_get_asset(ticker_loader: &TickerLoader, ticker: &String) -> (r: Result<Asset, Error>)
    ensures
        ticker_loader.knows(ticker@) ==> r == Ok::<Asset, Error>(ticker_loader.resolve(ticker@)),
        !ticker_loader.knows(ticker@) ==> r == Err::<Asset, Error>(
            Error::UnknownTicker(*ticker),
        ),
{
    match ticker_loader.find_ticker(ticker) {
        Some(i) => {
            proof {
                ticker_loader.lemma_first_by_ticker(ticker@, i as int);
            }
            Ok(
                Asset {
                    asset_id: ticker_loader.listings[i].asset_id,
                    precision: ticker_loader.listings[i].precision,
                },
            )
        },
        None => Err(Error::UnknownTicker(ticker.clone())),
    }
}

} // verus!
