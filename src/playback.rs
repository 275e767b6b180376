use vstd::prelude::*;

verus! {

/// Why an output frame cannot be laid out.
#[derive(Copy, Clone, Debug, PartialEq, Eq, Structural)]
pub enum ChannelError {
    UnsupportedInputChannels,
}

/// Which pulled sample each output channel of a frame takes: a mono stream
/// is pulled once per frame and copied to every channel, a stereo stream is
/// pulled once per output channel and written to the channels in turn.
pub open spec fn frame_source(input_channels: u16, channel: int) -> int {
    if input_channels == 1 {
        0
    } else {
        channel
    }
}

/// For each of the `output_channels` channels of an output frame, the index,
/// among the samples pulled for that frame, of the one it takes. The number
/// of samples to pull per frame is one more than the largest index. Streams
/// of other than one or two channels are refused.
pub fn frame_sources(input_channels: u16, output_channels: usize) -> (r: Result<
    Vec<usize>,
    ChannelError,
>)
    ensures
        (input_channels == 1 || input_channels == 2) <==> r is Ok,
        r is Err ==> r == Err::<Vec<usize>, ChannelError>(ChannelError::UnsupportedInputChannels),
        r matches Ok(v) ==> {
            &&& v@.len() == output_channels
            &&& forall|i: int|
                0 <= i < output_channels ==> #[trigger] v@[i] == frame_source(input_channels, i)
        },
{
    if input_channels != 1 && input_channels != 2 {
        return Err(ChannelError::UnsupportedInputChannels);
    }
    let mut v: Vec<usize> = Vec::with_capacity(output_channels);
    let mut i: usize = 0;
    while i < output_channels
        invariant
            input_channels == 1 || input_channels == 2,
            i <= output_channels,
            v@.len() == i,
            forall|j: int| 0 <= j < i ==> #[trigger] v@[j] == frame_source(input_channels, j),
        decreases output_channels - i,
    {
        if input_channels == 1 {
            v.push(0);
        } else {
            v.push(i);
        }
        i = i + 1;
    }
    Ok(v)
}

} // verus!
