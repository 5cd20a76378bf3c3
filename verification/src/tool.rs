use vstd::prelude::*;

use crate::binding::CallbackBinding;

verus! {

/// The tool descriptor: a callback binding table, an optional initializer,
/// an optional finalizer, and an opaque data word the host carries without
/// interpreting. Function pointers appear as opaque machine words; the raw
/// C surface that produces them lives outside this library.
///
/// A descriptor is built once and never mutated afterwards, so the host may
/// read it from any of its worker threads without further synchronization.
/// To make a tool the host can start, bind at least the initializer.
#[derive(Clone, Debug)]
pub struct OMPTTool {
    pub callbacks: Vec<CallbackBinding>,
    pub initialize_fn: Option<u64>,
    pub finalize_fn: Option<u64>,
    pub tool_data: u64,
}

/// The record the entry point hands back to the host, field for field what
/// the host ABI's result structure carries: initializer pointer, finalizer
/// pointer (nullable), and the opaque data word.
#[derive(Clone, Copy, Debug)]
pub struct StartToolResult {
    pub initialize: Option<u64>,
    pub finalize: Option<u64>,
    pub tool_data: u64,
}

impl OMPTTool {
    /// Builds a descriptor. A missing data word defaults to zero; a missing
    /// binding table defaults to the empty table. Nothing else is filled in,
    /// filtered or reordered.
    pub fn new(
        initializer: Option<u64>,
        finalizer: Option<u64>,
        tool_data: Option<u64>,
        callbacks: Option<Vec<CallbackBinding>>,
    ) -> (tool: OMPTTool)
        ensures
            tool.initialize_fn == initializer,
            tool.finalize_fn == finalizer,
            tool.tool_data == (match tool_data {
                Some(d) => d,
                None => 0u64,
            }),
            tool.callbacks@ == (match callbacks {
                Some(c) => c@,
                None => Seq::<CallbackBinding>::empty(),
            }),
    {
        let data: u64 = match tool_data {
            Some(d) => d,
            None => 0,
        };
        let table: Vec<CallbackBinding> = match callbacks {
            Some(c) => c,
            None => Vec::new(),
        };
        OMPTTool { callbacks: table, initialize_fn: initializer, finalize_fn: finalizer, tool_data: data }
    }

    /// Builds the record the entry point transfers to the host: the
    /// descriptor's initializer, finalizer and data word, unchanged. The
    /// caller at the C boundary gives the record a stable heap address for
    /// the rest of the process, since the host keeps the pointer forever.
    pub fn start_tool_result(&self) -> (r: StartToolResult)
        ensures
            r.initialize == self.initialize_fn,
            r.finalize == self.finalize_fn,
            r.tool_data == self.tool_data,
    {
        StartToolResult {
            initialize: self.initialize_fn,
            finalize: self.finalize_fn,
            tool_data: self.tool_data,
        }
    }
}

} // verus!
