//! The records that a batch keeps of its items, and its aggregate progress.

use vstd::prelude::*;
use vstd::string::StringExecFns;

verus! {

/// Where one item stands.
#[derive(Clone, Copy, Debug, PartialEq, Eq, Structural)]
pub enum ItemStatus {
    /// Submitted, not yet taken up by a worker.
    Loaded,
    /// A worker is converting it.
    Processing,
    /// Converted and written.
    Succeeded,
    /// Given up, with an error message.
    Failed,
}

impl ItemStatus {
    /// No status follows a terminal one.
    pub open spec fn is_terminal(self) -> bool {
        self == ItemStatus::Succeeded || self == ItemStatus::Failed
    }

    /// `next` is a status that an item in status `self` can take next:
    /// a loaded item starts processing, a processing item ends.
    pub open spec fn may_become(self, next: ItemStatus) -> bool {
        ||| self == ItemStatus::Loaded && next == ItemStatus::Processing
        ||| self == ItemStatus::Processing && next.is_terminal()
    }

    /// How far along the status is: 0 loaded, 1 processing, 2 terminal.
    pub open spec fn rank(self) -> nat {
        match self {
            ItemStatus::Loaded => 0,
            ItemStatus::Processing => 1,
            ItemStatus::Succeeded => 2,
            ItemStatus::Failed => 2,
        }
    }

    /// The text that a user reads for the status.
    pub open spec fn label_text(self) -> Seq<char> {
        match self {
            ItemStatus::Loaded => "Load successful"@,
            ItemStatus::Processing => "Processing..."@,
            ItemStatus::Succeeded => "Conversion successful"@,
            ItemStatus::Failed => "Conversion failed"@,
        }
    }

    pub fn terminal(self) -> (b: bool)
        ensures
            b == self.is_terminal(),
    {
        match self {
            ItemStatus::Succeeded => true,
            ItemStatus::Failed => true,
            _ => false,
        }
    }

    /// How far along the status is, as a number: 0 loaded, 1 processing,
    /// 2 terminal.
    pub fn position(self) -> (r: u8)
        ensures
            r == self.rank(),
    {
        match self {
            ItemStatus::Loaded => 0,
            ItemStatus::Processing => 1,
            ItemStatus::Succeeded => 2,
            ItemStatus::Failed => 2,
        }
    }

    pub fn label(self) -> (s: String)
        ensures
            s@ == self.label_text(),
    {
        match self {
            ItemStatus::Loaded => String::from_str("Load successful"),
            ItemStatus::Processing => String::from_str("Processing..."),
            ItemStatus::Succeeded => String::from_str("Conversion successful"),
            ItemStatus::Failed => String::from_str("Conversion failed"),
        }
    }
}

/// The fraction of an item's size that the conversion removed, kept as the
/// two sizes it is made of: `(original - compressed) / original`, that is
/// one less `compressed / original`. It is negative where the output is
/// larger than the input, and undefined for an empty input.
#[derive(Clone, Copy, Debug, PartialEq, Eq, Structural)]
pub struct CompressionRatio {
    pub original_size: u64,
    pub compressed_size: u64,
}

impl CompressionRatio {
    /// The numerator of the ratio: the bytes saved, negative for a loss.
    pub open spec fn numerator(self) -> int {
        self.original_size - self.compressed_size
    }

    /// The denominator of the ratio: the original size.
    pub open spec fn denominator(self) -> int {
        self.original_size as int
    }

    /// The ratio is the fraction `n / d`.
    pub open spec fn equals_fraction(self, n: int, d: int) -> bool {
        d != 0 && self.denominator() != 0 && self.numerator() * d == n * self.denominator()
    }

    pub fn of(original_size: u64, compressed_size: u64) -> (r: CompressionRatio)
        ensures
            r == (CompressionRatio { original_size, compressed_size }),
    {
        CompressionRatio { original_size, compressed_size }
    }

    /// The bytes saved: positive where the output is smaller.
    pub fn saved_bytes(&self) -> (n: i128)
        ensures
            n == self.numerator(),
    {
        self.original_size as i128 - self.compressed_size as i128
    }

    /// Whether the ratio equals `n / d`.
    pub fn is_fraction(&self, n: i64, d: i64) -> (b: bool)
        ensures
            b == self.equals_fraction(n as int, d as int),
    {
        if d == 0 || self.original_size == 0 {
            return false;
        }
        let saved: i128 = self.saved_bytes();
        let original: i128 = self.original_size as i128;
        assert(-0xFFFF_FFFF_FFFF_FFFF * 0x8000_0000_0000_0000 <= saved * (d as i128)
            <= 0xFFFF_FFFF_FFFF_FFFF * 0x8000_0000_0000_0000) by (nonlinear_arith)
            requires
                -0xFFFF_FFFF_FFFF_FFFF <= saved <= 0xFFFF_FFFF_FFFF_FFFF,
                -0x8000_0000_0000_0000 <= d <= 0x8000_0000_0000_0000,
        ;
        assert(-0xFFFF_FFFF_FFFF_FFFF * 0x8000_0000_0000_0000 <= (n as i128) * original
            <= 0xFFFF_FFFF_FFFF_FFFF * 0x8000_0000_0000_0000) by (nonlinear_arith)
            requires
                0 <= original <= 0xFFFF_FFFF_FFFF_FFFF,
                -0x8000_0000_0000_0000 <= n <= 0x8000_0000_0000_0000,
        ;
        saved * (d as i128) == (n as i128) * original
    }
}

/// One less the quotient of the sizes: the ratio and `compressed / original`
/// add up to one, written without division.
pub proof fn lemma_ratio_is_one_less_quotient(r: CompressionRatio)
    ensures
        r.numerator() * r.original_size + r.compressed_size * r.denominator() == r.denominator()
            * r.original_size,
{
    let o = r.original_size as int;
    let c = r.compressed_size as int;
    assert((o - c) * o + c * o == o * o) by (nonlinear_arith);
}

/// The aggregate progress of the current batch.
#[derive(Debug)]
pub struct ConversionProgress {
    /// The number of jobs in the batch.
    pub total: usize,
    /// The number of jobs that have reached a terminal status.
    pub completed: usize,
    /// A summary for the user.
    pub status: String,
}

/// The record of one item of the batch.
#[derive(Debug)]
pub struct ImageDetail {
    pub name: String,
    pub original_size: u64,
    pub compressed_size: Option<u64>,
    pub compression_rate: Option<CompressionRatio>,
    pub status: ItemStatus,
    pub error_message: Option<String>,
}

/// The view of an optional text.
pub open spec fn text_view(text: Option<String>) -> Option<Seq<char>> {
    match text {
        Some(s) => Some(s@),
        None => None,
    }
}

/// The mathematical content of a record.
pub struct ImageDetailView {
    pub name: Seq<char>,
    pub original_size: u64,
    pub compressed_size: Option<u64>,
    pub compression_rate: Option<CompressionRatio>,
    pub status: ItemStatus,
    pub error_message: Option<Seq<char>>,
}

impl View for ImageDetail {
    type V = ImageDetailView;

    open spec fn view(&self) -> ImageDetailView {
        ImageDetailView {
            name: self.name@,
            original_size: self.original_size,
            compressed_size: self.compressed_size,
            compression_rate: self.compression_rate,
            status: self.status,
            error_message: text_view(self.error_message),
        }
    }
}

impl ImageDetailView {
    /// The record of a fresh item.
    pub open spec fn loaded(name: Seq<char>, original_size: u64) -> ImageDetailView {
        ImageDetailView {
            name,
            original_size,
            compressed_size: None,
            compression_rate: None,
            status: ItemStatus::Loaded,
            error_message: None,
        }
    }

    /// The fields fit the status: a succeeded record has its compressed
    /// size and a ratio over that very size, a failed one has its message,
    /// and a record that is not done has neither.
    pub open spec fn consistent(self) -> bool {
        match self.status {
            ItemStatus::Succeeded => {
                &&& self.compression_rate matches Some(rate)
                &&& self.compressed_size == Some(rate.compressed_size)
                &&& self.error_message is None
            },
            ItemStatus::Failed => {
                &&& self.compressed_size is None
                &&& self.compression_rate is None
                &&& self.error_message is Some
            },
            _ => {
                &&& self.compressed_size is None
                &&& self.compression_rate is None
                &&& self.error_message is None
            },
        }
    }
}

impl ImageDetail {
    /// The record of a fresh item.
    pub fn loaded(name: String, original_size: u64) -> (detail: ImageDetail)
        ensures
            detail@ == ImageDetailView::loaded(name@, original_size),
    {
        ImageDetail {
            name,
            original_size,
            compressed_size: None,
            compression_rate: None,
            status: ItemStatus::Loaded,
            error_message: None,
        }
    }
}

/// The views of the records, in order.
pub open spec fn detail_views(details: Seq<ImageDetail>) -> Seq<ImageDetailView> {
    Seq::new(details.len(), |i: int| details[i]@)
}

/// The number of records in a terminal status.
pub open spec fn count_terminal(details: Seq<ImageDetailView>) -> nat
    decreases details.len(),
{
    if details.len() == 0 {
        0
    } else {
        count_terminal(details.drop_last()) + if details.last().status.is_terminal() {
            1nat
        } else {
            0nat
        }
    }
}

/// The original sizes of the succeeded records, added up.
pub open spec fn succeeded_original_bytes(details: Seq<ImageDetailView>) -> nat
    decreases details.len(),
{
    if details.len() == 0 {
        0
    } else {
        succeeded_original_bytes(details.drop_last()) + if details.last().status
            == ItemStatus::Succeeded {
            details.last().original_size as nat
        } else {
            0nat
        }
    }
}

/// The compressed sizes of the succeeded records, added up.
pub open spec fn succeeded_compressed_bytes(details: Seq<ImageDetailView>) -> nat
    decreases details.len(),
{
    if details.len() == 0 {
        0
    } else {
        succeeded_compressed_bytes(details.drop_last()) + match details.last().compressed_size {
            Some(compressed) if details.last().status == ItemStatus::Succeeded => compressed as nat,
            _ => 0nat,
        }
    }
}

} // verus!
