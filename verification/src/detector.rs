//! The detector: a fixed block of bytes and the passes over it.

use vstd::prelude::*;
use crate::access::{differs, load, overwrite};
use crate::config::AllocationMode;
use crate::parallel::{fill, position_any_changed};
use crate::sizer::{available_bytes, bytes_in_mode};

verus! {

/// The value written before zeroes, so that the operating system cannot back
/// the block with its shared zero page.
pub const PRIMING_VALUE: u8 = 42;

/// How a pass over the whole block is carried out.
#[derive(Clone, Copy, Debug, PartialEq, Eq, Structural)]
pub enum ScanMode {
    /// One pass from the first byte to the last, on the calling thread.
    Sequential,
    /// The block is shared out among the workers of the current thread pool.
    Parallel,
}

/// Why a detector could not be built.
#[derive(Clone, Copy, Debug, PartialEq, Eq, Structural)]
pub enum DetectorError {
    /// A detector of no bytes was asked for.
    ZeroCapacity,
    /// The allocator could not supply the bytes asked for.
    AllocationFailed,
    /// The platform offers no way to learn how much memory can be had.
    UnsupportedPlatform,
}

/// What a detector looks like to its users: the value every byte should hold
/// and the bytes themselves.
pub struct DetectorView {
    pub default: u8,
    pub mass: Seq<u8>,
}

impl DetectorView {
    /// The state of a fresh detector of `capacity` bytes.
    pub open spec fn created(default: u8, capacity: nat) -> DetectorView {
        DetectorView { default, mass: Seq::new(capacity, |i: int| default) }
    }

    /// The byte at `index`, if there is one.
    pub open spec fn get(self, index: int) -> Option<u8> {
        if 0 <= index < self.mass.len() {
            Some(self.mass[index])
        } else {
            None
        }
    }

    /// The byte at `index` no longer holds the default value.
    pub open spec fn changed_at(self, index: int) -> bool {
        0 <= index < self.mass.len() && self.mass[index] != self.default
    }

    /// Every byte holds the default value.
    pub open spec fn is_intact(self) -> bool {
        forall|i: int| !self.changed_at(i)
    }

    /// `index` is the lowest index whose byte has changed.
    pub open spec fn first_changed_at(self, index: int) -> bool {
        self.changed_at(index) && forall|j: int| 0 <= j < index ==> !self.changed_at(j)
    }

    /// `found` is an answer that a scan of this state in `mode` may give: no
    /// index when nothing has changed; otherwise the index of a changed byte,
    /// which a sequential scan promises to be the lowest.
    pub open spec fn admits(self, mode: ScanMode, found: Option<usize>) -> bool {
        match found {
            None => self.is_intact(),
            Some(index) => self.changed_at(index as int) && (mode == ScanMode::Sequential
                ==> self.first_changed_at(index as int)),
        }
    }

    /// The state after every byte has been overwritten with `value`.
    pub open spec fn written(self, value: u8) -> DetectorView {
        DetectorView { default: self.default, mass: Seq::new(self.mass.len(), |i: int| value) }
    }

    /// The state after the byte at `index` has been replaced by `value`; an
    /// index out of bounds changes nothing.
    pub open spec fn with_byte(self, index: int, value: u8) -> DetectorView {
        if 0 <= index < self.mass.len() {
            DetectorView { default: self.default, mass: self.mass.update(index, value) }
        } else {
            self
        }
    }

    /// The state after a reset.
    pub open spec fn reset(self) -> DetectorView {
        self.written(self.default)
    }

    /// The state after one write per element of `values`, in order.
    pub open spec fn written_in_turn(self, values: Seq<u8>) -> DetectorView
        decreases values.len(),
    {
        if values.len() == 0 {
            self
        } else {
            self.written_in_turn(values.drop_last()).written(values.last())
        }
    }
}

/// A block of memory that is watched for bytes changing on their own.
pub struct Detector {
    default: u8,
    detector_mass: Vec<u8>,
    mode: ScanMode,
    passes: Ghost<Seq<u8>>,
}

impl View for Detector {
    type V = DetectorView;

    closed spec fn view(&self) -> DetectorView {
        DetectorView { default: self.default, mass: self.detector_mass@ }
    }
}

impl Detector {
    /// A detector always holds at least one byte.
    pub open spec fn wf(&self) -> bool {
        self@.mass.len() > 0
    }

    /// How the detector carries out its passes.
    pub closed spec fn mode(&self) -> ScanMode {
        self.mode
    }

    /// The values of the whole-block writes made so far, oldest first.
    pub closed spec fn passes(&self) -> Seq<u8> {
        self.passes@
    }

    /// Builds a detector in `storage`, or reports why there is none.
    ///
    /// `storage` is what an attempt to set memory aside has produced: `None`
    /// when the allocator refused. Whatever the vector held is discarded.
    pub fn with_storage(default: u8, capacity_bytes: usize, storage: Option<Vec<u8>>) -> (made:
        Result<Detector, DetectorError>)
        ensures
            match made {
                Ok(detector) => {
                    &&& capacity_bytes > 0
                    &&& storage is Some
                    &&& detector.wf()
                    &&& detector@ == DetectorView::created(default, capacity_bytes as nat)
                    &&& detector.mode() == ScanMode::Sequential
                    &&& detector.passes() == Seq::<u8>::empty()
                },
                Err(error) => if capacity_bytes == 0 {
                    error == DetectorError::ZeroCapacity
                } else {
                    storage is None && error == DetectorError::AllocationFailed
                },
            },
    {
        if capacity_bytes == 0 {
            return Err(DetectorError::ZeroCapacity);
        }
        match storage {
            None => Err(DetectorError::AllocationFailed),
            Some(mut detector_mass) => {
                detector_mass.clear();
                detector_mass.resize(capacity_bytes, default);
                assert(detector_mass@ =~= Seq::new(capacity_bytes as nat, |i: int| default));
                Ok(
                    Detector {
                        default,
                        detector_mass,
                        mode: ScanMode::Sequential,
                        passes: Ghost(Seq::empty()),
                    },
                )
            },
        }
    }

    /// Allocates `capacity_bytes` bytes and fills them with `default`.
    ///
    /// A capacity of zero is refused. Whether the bytes can be had is for the
    /// allocator to say; when it refuses, so does this function. A fresh
    /// detector scans sequentially.
    pub fn new(default: u8, capacity_bytes: usize) -> (made: Result<Detector, DetectorError>)
        ensures
            match made {
                Ok(detector) => {
                    &&& capacity_bytes > 0
                    &&& detector.wf()
                    &&& detector@ == DetectorView::created(default, capacity_bytes as nat)
                    &&& detector.mode() == ScanMode::Sequential
                    &&& detector.passes() == Seq::<u8>::empty()
                },
                Err(error) => if capacity_bytes == 0 {
                    error == DetectorError::ZeroCapacity
                } else {
                    error == DetectorError::AllocationFailed
                },
            },
    {
        let mut detector_mass: Vec<u8> = Vec::new();
        let storage = match detector_mass.try_reserve(capacity_bytes) {
            Ok(_) => Some(detector_mass),
            Err(_) => None,
        };
        Detector::with_storage(default, capacity_bytes, storage)
    }

    /// Builds a detector of as many bytes as `reported` says can be had.
    ///
    /// `reported` is the answer of the operating system: a number of bytes,
    /// or the reason why there is none. A number beyond what the machine can
    /// address counts as the largest addressable size.
    pub fn with_reported_size(default: u8, reported: Result<u64, DetectorError>) -> (made: Result<
        Detector,
        DetectorError,
    >)
        ensures
            match reported {
                Err(error) => made == Err::<Detector, DetectorError>(error),
                Ok(bytes) => match made {
                    Ok(detector) => {
                        &&& bytes > 0
                        &&& detector.wf()
                        &&& detector@ == DetectorView::created(
                            default,
                            Self::addressable(bytes) as nat,
                        )
                        &&& detector.mode() == ScanMode::Sequential
                        &&& detector.passes() == Seq::<u8>::empty()
                    },
                    Err(error) => if bytes == 0 {
                        error == DetectorError::ZeroCapacity
                    } else {
                        error == DetectorError::AllocationFailed
                    },
                },
            },
    {
        match reported {
            Err(error) => Err(error),
            Ok(bytes) => {
                let capacity_bytes: usize = if bytes > usize::MAX as u64 {
                    usize::MAX
                } else {
                    bytes as usize
                };
                Detector::new(default, capacity_bytes)
            },
        }
    }

    /// The largest size that the machine can address and that does not
    /// exceed `bytes`.
    pub open spec fn addressable(bytes: u64) -> usize {
        if bytes > usize::MAX {
            usize::MAX
        } else {
            bytes as usize
        }
    }

    /// Builds a detector that fills as much memory as can be had without
    /// swapping.
    pub fn new_with_maximum_size(default: u8) -> (made: Result<Detector, DetectorError>)
        ensures
            made matches Ok(detector) ==> {
                &&& detector.wf()
                &&& detector@ == DetectorView::created(default, detector@.mass.len())
                &&& detector.mode() == ScanMode::Sequential
                &&& detector.passes() == Seq::<u8>::empty()
            },
    {
        Detector::with_reported_size(default, available_bytes())
    }

    /// Builds a detector that fills as much memory as can be had in the given
    /// way: with [`AllocationMode::Available`] what is unused or can be
    /// reclaimed, with [`AllocationMode::Free`] what is unused.
    pub fn new_with_maximum_size_in_mode(default: u8, mode: AllocationMode) -> (made: Result<
        Detector,
        DetectorError,
    >)
        ensures
            made matches Ok(detector) ==> {
                &&& detector.wf()
                &&& detector@ == DetectorView::created(default, detector@.mass.len())
                &&& detector.mode() == ScanMode::Sequential
                &&& detector.passes() == Seq::<u8>::empty()
            },
    {
        Detector::with_reported_size(default, bytes_in_mode(mode))
    }

    /// Chooses how the passes over the block are carried out from now on.
    pub fn with_scan_mode(self, mode: ScanMode) -> (detector: Detector)
        requires
            self.wf(),
        ensures
            detector.wf(),
            detector@ == self@,
            detector.passes() == self.passes(),
            detector.mode() == mode,
    {
        Detector {
            default: self.default,
            detector_mass: self.detector_mass,
            mode,
            passes: self.passes,
        }
    }

    /// Returns how the passes over the block are carried out.
    pub fn scan_mode(&self) -> (mode: ScanMode)
        requires
            self.wf(),
        ensures
            mode == self.mode(),
    {
        self.mode
    }

    /// Returns the size of the block in bytes, which is never zero.
    pub fn len(&self) -> (length: usize)
        requires
            self.wf(),
        ensures
            length == self@.mass.len(),
            length > 0,
    {
        self.detector_mass.len()
    }

    /// Returns the value that every byte is expected to hold. This is what
    /// [`reset`](Detector::reset) writes to every byte.
    pub fn default(&self) -> (value: u8)
        requires
            self.wf(),
        ensures
            value == self@.default,
    {
        self.default
    }

    /// Returns the byte at `index`, if there is one.
    pub fn get(&self, index: usize) -> (byte: Option<u8>)
        requires
            self.wf(),
        ensures
            byte == self@.get(index as int),
    {
        if index < self.detector_mass.len() {
            Some(load(&self.detector_mass[index]))
        } else {
            None
        }
    }

    /// Replaces the byte at `index` by `value`, as a stray particle might, and
    /// tells whether there is such a byte. An index out of bounds changes
    /// nothing.
    pub fn set(&mut self, index: usize, value: u8) -> (hit: bool)
        requires
            old(self).wf(),
        ensures
            final(self).wf(),
            hit == (index < old(self)@.mass.len()),
            final(self)@ == old(self)@.with_byte(index as int, value),
            final(self).mode() == old(self).mode(),
            final(self).passes() == old(self).passes(),
    {
        if index < self.detector_mass.len() {
            overwrite(&mut self.detector_mass[index], value);
            true
        } else {
            false
        }
    }

    /// Writes `value` to every byte of the block.
    ///
    /// Afterwards the block is intact exactly if `value` is the default value.
    pub fn write(&mut self, value: u8)
        requires
            old(self).wf(),
        ensures
            final(self).wf(),
            final(self)@ == old(self)@.written(value),
            final(self)@.is_intact() <==> value == old(self)@.default,
            final(self).mode() == old(self).mode(),
            final(self).passes() == old(self).passes().push(value),
    {
        match self.mode {
            ScanMode::Parallel => {
                fill(&mut self.detector_mass, value);
            },
            ScanMode::Sequential => {
                let length = self.detector_mass.len();
                let mut index: usize = 0;
                while index < length
                    invariant
                        index <= length,
                        length == self.detector_mass@.len(),
                        length > 0,
                        self.default == old(self).default,
                        self.mode == old(self).mode,
                        self.passes == old(self).passes,
                        forall|j: int| 0 <= j < index ==> self.detector_mass@[j] == value,
                    decreases length - index,
                {
                    overwrite(&mut self.detector_mass[index], value);
                    index += 1;
                }
            },
        }
        self.passes = Ghost(self.passes@.push(value));
        assert(self@.mass =~= old(self)@.written(value).mass);
        assert(self@.changed_at(0) <==> value != self@.default);
    }

    /// If a byte of the block does not hold the default value, returns the
    /// index of such a byte: the lowest one when scanning sequentially, any
    /// one when scanning in parallel.
    pub fn position_of_changed_element(&self) -> (found: Option<usize>)
        requires
            self.wf(),
        ensures
            self@.admits(self.mode(), found),
            found is None <==> self@.is_intact(),
    {
        match self.mode {
            ScanMode::Parallel => {
                let found = position_any_changed(&self.detector_mass, self.default);
                assert(found matches Some(index) ==> self@.changed_at(index as int));
                found
            },
            ScanMode::Sequential => {
                let length = self.detector_mass.len();
                let mut index: usize = 0;
                while index < length
                    invariant
                        index <= length,
                        length == self.detector_mass@.len(),
                        forall|j: int| 0 <= j < index ==> !self@.changed_at(j),
                    decreases length - index,
                {
                    if differs(&self.detector_mass[index], self.default) {
                        assert(self@.changed_at(index as int));
                        return Some(index);
                    }
                    index += 1;
                }
                None
            },
        }
    }

    /// If a byte of the block does not hold the default value, returns the
    /// index of such a byte and the value found there.
    ///
    /// The value is read after the byte has been located.
    pub fn position_and_value_of_changed_element(&self) -> (found: Option<(usize, u8)>)
        requires
            self.wf(),
        ensures
            found is None <==> self@.is_intact(),
            found matches Some((index, value)) ==> {
                &&& self@.admits(self.mode(), Some(index))
                &&& self@.get(index as int) == Some(value)
            },
    {
        match self.position_of_changed_element() {
            Some(index) => match self.get(index) {
                Some(value) => Some((index, value)),
                None => None,
            },
            None => None,
        }
    }

    /// Checks whether every byte of the block holds the default value.
    pub fn is_intact(&self) -> (intact: bool)
        requires
            self.wf(),
        ensures
            intact == self@.is_intact(),
    {
        self.position_and_value_of_changed_element().is_none()
    }

    /// Restores every byte of the block to the default value.
    ///
    /// Where the default value is zero, the block is first written with
    /// [`PRIMING_VALUE`]: zeroes alone might leave the pages unallocated.
    pub fn reset(&mut self)
        requires
            old(self).wf(),
        ensures
            final(self).wf(),
            final(self)@ == old(self)@.reset(),
            final(self)@.is_intact(),
            final(self).mode() == old(self).mode(),
            final(self).passes() == if old(self)@.default == 0 {
                old(self).passes().push(PRIMING_VALUE).push(0)
            } else {
                old(self).passes().push(old(self)@.default)
            },
    {
        if self.default == 0 {
            self.write(PRIMING_VALUE);
        }
        let default = self.default;
        self.write(default);
    }
}

} // verus!
