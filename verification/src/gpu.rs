use vstd::prelude::*;
use crate::dot_product::{elementwise_product, is_product_of};
use crate::error::DotProductError;

verus! {

/// The name of the kernel function in the kernel library.
pub const KERNEL_NAME: &'static str = "dot_product";

/// The number of bytes that one word takes in a device buffer.
pub const WORD_SIZE: u64 = 4;

/// A number of threads in each of three dimensions.
#[derive(Debug, Clone, Copy, PartialEq, Eq)]
pub struct Extent {
    pub width: u64,
    pub height: u64,
    pub depth: u64,
}

impl Extent {
    /// The extent of `width` threads in a row.
    pub open spec fn row(width: u64) -> Extent {
        Extent { width, height: 1, depth: 1 }
    }
}

/// What the host needs to run the kernel once: three buffers of one size,
/// bound one after the other (left input, right input, output), and one
/// thread for each word.
#[derive(Debug, Clone, Copy, PartialEq, Eq)]
pub struct DispatchPlan {
    /// The number of words in each input and in the output.
    pub length: u64,
    /// The size in bytes of each of the three buffers.
    pub buffer_size: u64,
    /// The index at which the left input is bound; the right input and the
    /// output take the next two.
    pub first_buffer_index: u64,
    /// The offset in bytes at which each buffer is bound.
    pub buffer_offset: u64,
    /// The threads of the whole dispatch.
    pub threads_per_grid: Extent,
    /// The threads of one threadgroup.
    pub threads_per_threadgroup: Extent,
}

impl DispatchPlan {
    /// Whether three buffers of `length` words each can be planned: the size
    /// of one in bytes has to fit the device's 64-bit lengths.
    pub open spec fn fits(length: usize) -> bool {
        length * WORD_SIZE <= u64::MAX
    }

    /// The plan for inputs of `length` words: buffers of `WORD_SIZE` bytes
    /// for each word, bound from index 0 at offset 0, and a single
    /// threadgroup that is a row of `length` threads.
    pub open spec fn planned(length: usize) -> DispatchPlan
        recommends
            Self::fits(length),
    {
        DispatchPlan {
            length: length as u64,
            buffer_size: (length * WORD_SIZE) as u64,
            first_buffer_index: 0,
            buffer_offset: 0,
            threads_per_grid: Extent::row(length as u64),
            threads_per_threadgroup: Extent::row(length as u64),
        }
    }

    /// Plans the dispatch for inputs of `length` words. Fails, with
    /// `InputTooLarge`, exactly when the size of a buffer does not fit.
    pub fn for_length(length: usize) -> (result: Result<DispatchPlan, DotProductError>)
        ensures
            Self::fits(length) ==> result == Ok::<DispatchPlan, DotProductError>(
                Self::planned(length),
            ),
            !Self::fits(length) ==> result == Err::<DispatchPlan, DotProductError>(
                DotProductError::InputTooLarge { length },
            ),
    {
        let words: u64 = length as u64;
        match words.checked_mul(WORD_SIZE) {
            Some(buffer_size) => Ok(
                DispatchPlan {
                    length: words,
                    buffer_size,
                    first_buffer_index: 0,
                    buffer_offset: 0,
                    threads_per_grid: Extent { width: words, height: 1, depth: 1 },
                    threads_per_threadgroup: Extent { width: words, height: 1, depth: 1 },
                },
            ),
            None => Err(DotProductError::InputTooLarge { length }),
        }
    }

    /// The number of whole words in a buffer of `byte_length` bytes.
    pub fn words_in(byte_length: u64) -> (words: u64)
        ensures
            words == byte_length / WORD_SIZE,
    {
        byte_length / WORD_SIZE
    }
}

/// Where a run on the device stands: the outcome it waits for, or that it is
/// over.
#[derive(Debug, Clone, Copy, PartialEq, Eq)]
pub enum GpuStage {
    /// Waiting for the outcome of the device lookup.
    Device,
    /// Waiting for the outcome of loading the kernel library.
    Library,
    /// Waiting for the outcome of the lookup of the kernel function.
    Function,
    /// Waiting for the outcome of building the compute pipeline.
    Pipeline,
    /// Waiting for the words of the output buffer.
    Output,
    /// The run is over.
    Finished,
}

/// What the host reports to a run: the outcome of one command.
#[derive(Debug, PartialEq, Eq)]
pub enum GpuEvent {
    /// The device lookup ended; `true` if the system has a default device.
    Device(bool),
    /// Loading the kernel library ended, with the device layer's message if it failed.
    Library(Result<(), String>),
    /// The lookup of the kernel function ended, with the device layer's message if it failed.
    Function(Result<(), String>),
    /// Building the compute pipeline ended, with the device layer's message if it failed.
    Pipeline(Result<(), String>),
    /// The dispatch completed; holds the words read back from the output buffer.
    Output(Vec<u32>),
}

/// What a run asks of the host next.
#[derive(Debug, PartialEq, Eq)]
pub enum GpuCommand {
    /// Look up the system's default device.
    FindDevice,
    /// Load the kernel library on the device.
    LoadLibrary,
    /// Look up the kernel function of this name in the library.
    GetFunction(&'static str),
    /// Build the compute pipeline from the kernel function.
    BuildPipeline,
    /// Fill the buffers, run the kernel as planned, wait for it, and read the
    /// output buffer back.
    Dispatch(DispatchPlan),
    /// Stop: the run is over, with this result.
    Finish(Result<Vec<u32>, DotProductError>),
}

/// The strategy that computes on the system's default compute device.
///
/// The strategy itself never touches the device. It hands out a `GpuRun`,
/// which tells the host one command at a time what to do, and decides from
/// each outcome how the run goes on.
#[derive(Debug, Clone, Copy, PartialEq, Eq)]
pub struct DotProductGPU {}

impl DotProductGPU {
    /// Creates the device strategy.
    pub fn new() -> (gpu: DotProductGPU)
        ensures
            gpu == (DotProductGPU {}),
    {
        DotProductGPU {}
    }

    /// Begins a run on two inputs of `left` and `right` words. The run first
    /// asks for the device; the lengths are looked at once the pipeline stands.
    pub fn begin(&self, left: usize, right: usize) -> (start: (GpuRun, GpuCommand))
        ensures
            start.0.stage() == GpuStage::Device,
            start.0.left() == left,
            start.0.right() == right,
            start.1 == GpuCommand::FindDevice,
    {
        (GpuRun { stage: GpuStage::Device, left, right }, GpuCommand::FindDevice)
    }
}

/// One run of the device strategy on inputs of two given lengths.
pub struct GpuRun {
    stage: GpuStage,
    left: usize,
    right: usize,
}

impl GpuRun {
    /// The stage at which the run stands.
    pub closed spec fn spec_stage(&self) -> GpuStage {
        self.stage
    }

    /// The length of the left input.
    pub closed spec fn spec_left(&self) -> usize {
        self.left
    }

    /// The length of the right input.
    pub closed spec fn spec_right(&self) -> usize {
        self.right
    }

    /// Returns the stage at which the run stands.
    #[verifier::when_used_as_spec(spec_stage)]
    pub fn stage(&self) -> (stage: GpuStage)
        ensures
            stage == self.stage(),
    {
        self.stage
    }

    /// Returns the length of the left input.
    #[verifier::when_used_as_spec(spec_left)]
    pub fn left(&self) -> (left: usize)
        ensures
            left == self.left(),
    {
        self.left
    }

    /// Returns the length of the right input.
    #[verifier::when_used_as_spec(spec_right)]
    pub fn right(&self) -> (right: usize)
        ensures
            right == self.right(),
    {
        self.right
    }

    /// A run waits for output only on equally long inputs whose buffers fit.
    #[verifier::type_invariant]
    pub open spec fn well_formed(&self) -> bool {
        self.stage() == GpuStage::Output ==> self.left() == self.right() && DispatchPlan::fits(
            self.left(),
        )
    }

    /// What a run at `stage`, on inputs of `left` and `right` words, does on
    /// `event`: the stage it moves to and the command it gives.
    ///
    /// The four preparing steps follow one another, and the first that fails
    /// ends the run with its own error. Once the pipeline stands, the lengths
    /// decide whether anything is dispatched. The output is accepted if it is
    /// as long as the inputs. An event that does not answer the pending
    /// command ends the run.
    pub open spec fn transition(stage: GpuStage, left: usize, right: usize, event: GpuEvent) -> (
        GpuStage,
        GpuCommand,
    ) {
        match (stage, event) {
            (GpuStage::Device, GpuEvent::Device(true)) => (
                GpuStage::Library,
                GpuCommand::LoadLibrary,
            ),
            (GpuStage::Device, GpuEvent::Device(false)) => Self::finished(
                Err(DotProductError::NoDevice),
            ),
            (GpuStage::Library, GpuEvent::Library(Ok(_))) => (
                GpuStage::Function,
                GpuCommand::GetFunction(KERNEL_NAME),
            ),
            (GpuStage::Library, GpuEvent::Library(Err(text))) => Self::finished(
                Err(DotProductError::Library(text)),
            ),
            (GpuStage::Function, GpuEvent::Function(Ok(_))) => (
                GpuStage::Pipeline,
                GpuCommand::BuildPipeline,
            ),
            (GpuStage::Function, GpuEvent::Function(Err(text))) => Self::finished(
                Err(DotProductError::Function(text)),
            ),
            (GpuStage::Pipeline, GpuEvent::Pipeline(Ok(_))) => if left != right {
                Self::finished(Err(DotProductError::LengthMismatch { left, right }))
            } else if !DispatchPlan::fits(left) {
                Self::finished(Err(DotProductError::InputTooLarge { length: left }))
            } else {
                (GpuStage::Output, GpuCommand::Dispatch(DispatchPlan::planned(left)))
            },
            (GpuStage::Pipeline, GpuEvent::Pipeline(Err(text))) => Self::finished(
                Err(DotProductError::Pipeline(text)),
            ),
            (GpuStage::Output, GpuEvent::Output(words)) => if words@.len() == left {
                Self::finished(Ok(words))
            } else {
                Self::finished(
                    Err(
                        DotProductError::OutputLength {
                            expected: left,
                            actual: words@.len() as usize,
                        },
                    ),
                )
            },
            _ => Self::finished(Err(DotProductError::UnexpectedEvent)),
        }
    }

    /// The end of a run with `result`.
    pub open spec fn finished(result: Result<Vec<u32>, DotProductError>) -> (GpuStage, GpuCommand) {
        (GpuStage::Finished, GpuCommand::Finish(result))
    }

    /// Takes the outcome of the pending command and says what the host does
    /// next; the run moves on as `transition` states.
    ///
    /// A run hands back a product only for equally long inputs, and only one
    /// that is as long as they are. It asks for a dispatch only for equally
    /// long inputs.
    pub fn step(self, event: GpuEvent) -> (next: (GpuRun, GpuCommand))
        ensures
            (next.0.stage(), next.1) == Self::transition(
                self.stage(),
                self.left(),
                self.right(),
                event,
            ),
            next.0.left() == self.left(),
            next.0.right() == self.right(),
            next.1 matches GpuCommand::Finish(Ok(words)) ==> self.left() == self.right()
                && words@.len() == self.left(),
            next.1 is Dispatch ==> self.left() == self.right(),
    {
        proof {
            use_type_invariant(&self);
        }
        let left = self.left;
        let right = self.right;
        match (self.stage, event) {
            (GpuStage::Device, GpuEvent::Device(found)) => {
                if found {
                    (GpuRun { stage: GpuStage::Library, left, right }, GpuCommand::LoadLibrary)
                } else {
                    Self::finish(left, right, Err(DotProductError::NoDevice))
                }
            },
            (GpuStage::Library, GpuEvent::Library(outcome)) => {
                match outcome {
                    Ok(_) => (
                        GpuRun { stage: GpuStage::Function, left, right },
                        GpuCommand::GetFunction(KERNEL_NAME),
                    ),
                    Err(text) => Self::finish(left, right, Err(DotProductError::Library(text))),
                }
            },
            (GpuStage::Function, GpuEvent::Function(outcome)) => {
                match outcome {
                    Ok(_) => (
                        GpuRun { stage: GpuStage::Pipeline, left, right },
                        GpuCommand::BuildPipeline,
                    ),
                    Err(text) => Self::finish(left, right, Err(DotProductError::Function(text))),
                }
            },
            (GpuStage::Pipeline, GpuEvent::Pipeline(outcome)) => {
                match outcome {
                    Ok(_) => {
                        if left != right {
                            Self::finish(
                                left,
                                right,
                                Err(DotProductError::LengthMismatch { left, right }),
                            )
                        } else {
                            match DispatchPlan::for_length(left) {
                                Ok(plan) => (
                                    GpuRun { stage: GpuStage::Output, left, right },
                                    GpuCommand::Dispatch(plan),
                                ),
                                Err(error) => Self::finish(left, right, Err(error)),
                            }
                        }
                    },
                    Err(text) => Self::finish(left, right, Err(DotProductError::Pipeline(text))),
                }
            },
            (GpuStage::Output, GpuEvent::Output(words)) => {
                if words.len() == left {
                    Self::finish(left, right, Ok(words))
                } else {
                    let actual = words.len();
                    Self::finish(
                        left,
                        right,
                        Err(DotProductError::OutputLength { expected: left, actual }),
                    )
                }
            },
            _ => Self::finish(left, right, Err(DotProductError::UnexpectedEvent)),
        }
    }

    /// Ends a run on inputs of `left` and `right` words with `result`.
    fn finish(left: usize, right: usize, result: Result<Vec<u32>, DotProductError>) -> (next: (
        GpuRun,
        GpuCommand,
    ))
        ensures
            (next.0.stage(), next.1) == Self::finished(result),
            next.0.left() == left,
            next.0.right() == right,
    {
        (GpuRun { stage: GpuStage::Finished, left, right }, GpuCommand::Finish(result))
    }
}

/// What the device layer answers in the course of one run: the outcome of
/// each command that a run can give. A run that ends early never asks for
/// the later ones.
pub struct DeviceAnswers {
    /// Whether the system has a default device.
    pub device: bool,
    /// The outcome of loading the kernel library.
    pub library: Result<(), String>,
    /// The outcome of the lookup of the kernel function.
    pub function: Result<(), String>,
    /// The outcome of building the compute pipeline.
    pub pipeline: Result<(), String>,
    /// The words that the kernel leaves in the output buffer.
    pub output: Vec<u32>,
}

impl DeviceAnswers {
    /// The event by which a host reports the outcome of `command`; `Finish`
    /// asks for nothing, and nothing is reported for it.
    pub open spec fn event_for(&self, command: GpuCommand) -> Option<GpuEvent> {
        match command {
            GpuCommand::FindDevice => Some(GpuEvent::Device(self.device)),
            GpuCommand::LoadLibrary => Some(GpuEvent::Library(self.library)),
            GpuCommand::GetFunction(_) => Some(GpuEvent::Function(self.function)),
            GpuCommand::BuildPipeline => Some(GpuEvent::Pipeline(self.pipeline)),
            GpuCommand::Dispatch(_) => Some(GpuEvent::Output(self.output)),
            GpuCommand::Finish(_) => None,
        }
    }

    /// Whether the device stands ready: it was found, and library, function
    /// and pipeline were made.
    pub open spec fn ready(&self) -> bool {
        self.device && self.library is Ok && self.function is Ok && self.pipeline is Ok
    }
}

impl DotProductGPU {
    /// The result of a whole run on inputs of `left` and `right` words
    /// against a device layer that answers as `answers` says.
    ///
    /// The first preparing step that fails gives the error. If none fails,
    /// unequal lengths do, then buffers that do not fit, then an output of
    /// another length than the inputs. Otherwise the result is the output.
    pub open spec fn run_result(left: usize, right: usize, answers: DeviceAnswers) -> Result<
        Vec<u32>,
        DotProductError,
    > {
        if !answers.device {
            Err(DotProductError::NoDevice)
        } else if let Err(text) = answers.library {
            Err(DotProductError::Library(text))
        } else if let Err(text) = answers.function {
            Err(DotProductError::Function(text))
        } else if let Err(text) = answers.pipeline {
            Err(DotProductError::Pipeline(text))
        } else if left != right {
            Err(DotProductError::LengthMismatch { left, right })
        } else if !DispatchPlan::fits(left) {
            Err(DotProductError::InputTooLarge { length: left })
        } else if answers.output@.len() != left {
            Err(
                DotProductError::OutputLength {
                    expected: left,
                    actual: answers.output@.len() as usize,
                },
            )
        } else {
            Ok(answers.output)
        }
    }

    /// The last command of a run that stands at `stage` with `command`
    /// pending, where the host carries out each command, reports what
    /// `answers` holds for it, and stops at `Finish` or after `steps` reports.
    pub open spec fn drive(
        stage: GpuStage,
        command: GpuCommand,
        left: usize,
        right: usize,
        answers: DeviceAnswers,
        steps: nat,
    ) -> GpuCommand
        decreases steps,
    {
        match answers.event_for(command) {
            Some(event) if steps > 0 => {
                let next = GpuRun::transition(stage, left, right, event);
                Self::drive(next.0, next.1, left, right, answers, (steps - 1) as nat)
            },
            _ => command,
        }
    }

    /// A run that a host drives from its beginning, carrying out each command
    /// in turn, is over after five reports at most, and ends with
    /// `run_result`.
    pub proof fn lemma_run_ends_with_result(left: usize, right: usize, answers: DeviceAnswers)
        ensures
            Self::drive(GpuStage::Device, GpuCommand::FindDevice, left, right, answers, 5)
                == GpuCommand::Finish(Self::run_result(left, right, answers)),
    {
        reveal_with_fuel(DotProductGPU::drive, 6);
    }

    /// Both strategies agree. Where the device stands ready and the buffers
    /// fit, and the kernel leaves the elementwise product of equally long
    /// inputs in the output buffer, a run ends with what the CPU strategy
    /// returns for the same inputs: that product, or, for inputs of different
    /// lengths, the error that names the lengths.
    pub proof fn lemma_strategies_agree(v: Seq<u32>, w: Seq<u32>, answers: DeviceAnswers)
        requires
            v.len() <= usize::MAX,
            w.len() <= usize::MAX,
            answers.ready(),
            v.len() == w.len() ==> DispatchPlan::fits(v.len() as usize) && answers.output@
                == elementwise_product(v, w),
        ensures
            is_product_of(Self::run_result(v.len() as usize, w.len() as usize, answers), v, w),
    {
    }
}

impl GpuStage {
    /// The place of a stage in the course of a run.
    pub open spec fn rank(&self) -> nat {
        match self {
            GpuStage::Device => 0,
            GpuStage::Library => 1,
            GpuStage::Function => 2,
            GpuStage::Pipeline => 3,
            GpuStage::Output => 4,
            GpuStage::Finished => 5,
        }
    }
}

impl GpuRun {
    /// No step goes back or repeats: a step either ends the run, and then
    /// gives `Finish`, or moves it to the stage that follows, and then gives
    /// another command. A run that is over stays over.
    pub proof fn lemma_step_advances(stage: GpuStage, left: usize, right: usize, event: GpuEvent)
        ensures
            ({
                let next = Self::transition(stage, left, right, event);
                &&& next.1 is Finish <==> next.0 == GpuStage::Finished
                &&& next.0 != GpuStage::Finished ==> next.0.rank() == stage.rank() + 1
            }),
    {
    }
}

} // verus!
