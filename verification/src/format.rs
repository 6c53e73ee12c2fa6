//! Output color formats a view can render to.

use vstd::prelude::*;

verus! {

/// The color format of a view's main texture, as far as the effect tells
/// formats apart.
#[derive(Clone, Copy, Debug, PartialEq, Eq, Structural)]
pub enum OutputFormat {
    /// The standard display format: 8 bits per channel, sRGB.
    Standard,
    /// The high-dynamic-range format: 16-bit float per channel.
    Hdr,
    /// Any format the effect has no pipeline for.
    Other,
}

impl OutputFormat {
    /// Whether a pipeline is built for this format.
    pub open spec fn is_supported(self) -> bool {
        self != OutputFormat::Other
    }

    /// The key under which this format is filed.
    pub open spec fn spec_code(self) -> u32 {
        match self {
            OutputFormat::Standard => 0,
            OutputFormat::Hdr => 1,
            OutputFormat::Other => 2,
        }
    }

    /// The key under which this format is filed.
    #[verifier::when_used_as_spec(spec_code)]
    pub fn code(self) -> (c: u32)
        ensures
            c == self.spec_code(),
    {
        match self {
            OutputFormat::Standard => 0,
            OutputFormat::Hdr => 1,
            OutputFormat::Other => 2,
        }
    }
}

/// The formats a pipeline is built for, in the order they are queued.
pub open spec fn spec_supported_formats() -> Seq<OutputFormat> {
    seq![OutputFormat::Standard, OutputFormat::Hdr]
}

/// The formats a pipeline is built for, in the order they are queued.
pub fn supported_formats() -> (formats: Vec<OutputFormat>)
    ensures
        formats@ == spec_supported_formats(),
{
    let mut formats: Vec<OutputFormat> = Vec::new();
    formats.push(OutputFormat::Standard);
    formats.push(OutputFormat::Hdr);
    assert(formats@ =~= spec_supported_formats());
    formats
}

/// A format is supported exactly when it is one of the queued formats.
pub proof fn lemma_supported_formats(format: OutputFormat)
    ensures
        format.is_supported() <==> spec_supported_formats().contains(format),
{
    let s = spec_supported_formats();
    assert(s[0] == OutputFormat::Standard);
    assert(s[1] == OutputFormat::Hdr);
}

} // verus!
