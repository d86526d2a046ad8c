//! The fixed sizes of the pipeline.

use vstd::prelude::*;

verus! {

/// Number of leading lines captured as the sample.
pub const SAMPLE_SIZE: usize = 20;

/// Greatest number of lines carried by one batch.
pub const BATCH_SIZE: usize = 1000;

/// Greatest number of batches in flight in the channel.
pub const CHANNEL_CAPACITY: usize = 10;

} // verus!
