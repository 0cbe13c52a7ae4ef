use vstd::prelude::*;

verus! {

/// Which compute backend the caller would like the model to run on.
#[derive(Clone, Copy, Debug, PartialEq, Eq, Structural)]
pub enum DevicePreference {
    /// An accelerator where one can be had, else the processor.
    Auto,
    /// The processor, whatever else the device offers.
    CpuOnly,
}

/// The compute backend a model handle actually runs on.
#[derive(Clone, Copy, Debug, PartialEq, Eq, Structural)]
pub enum Backend {
    Cpu,
    Accelerator,
}

/// The backend that serves `preference` on a device where an accelerator is
/// or is not ready.
pub open spec fn backend_for(preference: DevicePreference, accelerator_ready: bool) -> Backend {
    if preference == DevicePreference::Auto && accelerator_ready {
        Backend::Accelerator
    } else {
        Backend::Cpu
    }
}

/// Picks the backend for a model handle. A preference that cannot be
/// honoured falls back to the processor; the answer tells the caller which
/// backend is in use.
pub fn resolve_backend(preference: DevicePreference, accelerator_ready: bool) -> (backend: Backend)
    ensures
        backend == backend_for(preference, accelerator_ready),
        preference == DevicePreference::CpuOnly ==> backend == Backend::Cpu,
        !accelerator_ready ==> backend == Backend::Cpu,
{
    match preference {
        DevicePreference::Auto => {
            if accelerator_ready {
                Backend::Accelerator
            } else {
                Backend::Cpu
            }
        },
        DevicePreference::CpuOnly => Backend::Cpu,
    }
}

/// How many tokens a request generates where the caller sets no limit.
pub const DEFAULT_MAX_NEW_TOKENS: usize = 200;

/// What a caller may set for one generation request.
#[derive(Debug)]
pub struct GenerationOptions {
    /// The most tokens the request may generate. Zero is allowed.
    pub max_new_tokens: usize,
    /// Token ids that end the request when one of them is chosen.
    pub stop_token_ids: Vec<u32>,
    /// The backend asked for.
    pub device_preference: DevicePreference,
}

impl Default for GenerationOptions {
    fn default() -> (options: GenerationOptions)
        ensures
            options.max_new_tokens == DEFAULT_MAX_NEW_TOKENS,
            options.stop_token_ids@ == Seq::<u32>::empty(),
            options.device_preference == DevicePreference::Auto,
    {
        GenerationOptions {
            max_new_tokens: DEFAULT_MAX_NEW_TOKENS,
            stop_token_ids: Vec::new(),
            device_preference: DevicePreference::Auto,
        }
    }
}

impl GenerationOptions {
    /// Whether `id` is one of the configured end-of-sequence ids.
    pub fn is_stop_token(&self, id: u32) -> (stops: bool)
        ensures
            stops == self.stop_token_ids@.contains(id),
    {
        contains_id(&self.stop_token_ids, id)
    }
}

/// Whether `id` occurs in `ids`.
pub fn contains_id(ids: &Vec<u32>, id: u32) -> (found: bool)
    ensures
        found == ids@.contains(id),
{
    let mut i: usize = 0;
    while i < ids.len()
        invariant
            i <= ids@.len(),
            forall|j: int| 0 <= j < i ==> ids@[j] != id,
        decreases ids@.len() - i,
    {
        if ids[i] == id {
            return true;
        }
        i += 1;
    }
    false
}

} // verus!
