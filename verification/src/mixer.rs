//! Audio mixing decisions: which sources a mixer captures, how it routes
//! them, and how the frames of two sources are paired for mixing. The
//! arithmetic on the samples is the caller's.

use vstd::prelude::*;
use std::collections::VecDeque;
use crate::config::AudioSource;
use crate::error::NitrogenError;
use crate::text::owned;

verus! {

/// The message of the error for a mixer asked to capture nothing.
pub const MIXER_NEEDS_SOURCE: &'static str = "Cannot create mixer with AudioSource::None";

/// Which streams a mixer for an audio source captures: (desktop, microphone).
/// A mixer needs a source.
pub fn mixer_inputs(source: AudioSource) -> (r: Result<(bool, bool), NitrogenError>)
    ensures
        source == AudioSource::NoAudio ==> (r matches Err(NitrogenError::Config(m))
            && m@ == MIXER_NEEDS_SOURCE@),
        source != AudioSource::NoAudio ==> r == Ok::<(bool, bool), NitrogenError>(
            (
                source == AudioSource::Desktop || source == AudioSource::Both,
                source == AudioSource::Microphone || source == AudioSource::Both,
            ),
        ),
{
    match source {
        AudioSource::NoAudio => Err(NitrogenError::Config(owned(MIXER_NEEDS_SOURCE))),
        AudioSource::Desktop => Ok((true, false)),
        AudioSource::Microphone => Ok((false, true)),
        AudioSource::Both => Ok((true, true)),
    }
}

/// How a mixer handles its streams.
#[derive(Debug, Clone, Copy, PartialEq, Eq, Structural)]
pub enum MixRoute {
    /// No stream: nothing to do
    Nothing,
    /// Only desktop audio: forward it with its volume
    ForwardDesktop,
    /// Only the microphone: forward it with its volume
    ForwardMic,
    /// Both: pair their frames and mix them
    MixBoth,
}

/// The route for the streams a mixer has
pub fn mix_route(has_desktop: bool, has_mic: bool) -> (r: MixRoute)
    ensures
        r == (if has_desktop && has_mic {
            MixRoute::MixBoth
        } else if has_desktop {
            MixRoute::ForwardDesktop
        } else if has_mic {
            MixRoute::ForwardMic
        } else {
            MixRoute::Nothing
        }),
{
    if has_desktop && has_mic {
        MixRoute::MixBoth
    } else if has_desktop {
        MixRoute::ForwardDesktop
    } else if has_mic {
        MixRoute::ForwardMic
    } else {
        MixRoute::Nothing
    }
}

/// What the mixing loop observed.
pub enum MixEvent<T> {
    /// A desktop frame arrived
    Desktop(T),
    /// The desktop stream closed
    DesktopClosed,
    /// A microphone frame arrived
    Mic(T),
    /// The microphone stream closed
    MicClosed,
    /// Nothing arrived (a timeout or a lag)
    Idle,
}

/// A frame to send on.
pub enum MixOutput<T> {
    /// A desktop frame and a microphone frame to mix
    Mixed(T, T),
    /// A desktop frame alone (the microphone closed)
    Desktop(T),
    /// A microphone frame alone (the desktop stream closed)
    Mic(T),
}

/// The smaller of two lengths.
pub open spec fn min_len(a: nat, b: nat) -> nat {
    if a <= b { a } else { b }
}

/// The first frames of both sources, paired in order.
pub open spec fn paired<T>(d: Seq<T>, m: Seq<T>) -> Seq<MixOutput<T>> {
    Seq::new(min_len(d.len(), m.len()), |i: int| MixOutput::Mixed(d[i], m[i]))
}

/// Desktop frames sent alone.
pub open spec fn desktop_alone<T>(d: Seq<T>) -> Seq<MixOutput<T>> {
    Seq::new(d.len(), |i: int| MixOutput::Desktop(d[i]))
}

/// Microphone frames sent alone.
pub open spec fn mic_alone<T>(m: Seq<T>) -> Seq<MixOutput<T>> {
    Seq::new(m.len(), |i: int| MixOutput::Mic(m[i]))
}

/// What is sent from buffers `d` and `m`: the pairs first; then, once the
/// desktop stream closed, the microphone frames left; then, once the
/// microphone closed, the desktop frames left.
pub open spec fn mix_outputs<T>(d: Seq<T>, m: Seq<T>, desktop_closed: bool, mic_closed: bool) -> Seq<
    MixOutput<T>,
> {
    let n = min_len(d.len(), m.len()) as int;
    paired(d, m) + (if desktop_closed {
        mic_alone(m.skip(n))
    } else {
        Seq::empty()
    }) + (if mic_closed {
        desktop_alone(d.skip(n))
    } else {
        Seq::empty()
    })
}

/// The desktop frames that stay buffered.
pub open spec fn desktop_left<T>(d: Seq<T>, m: Seq<T>, mic_closed: bool) -> Seq<T> {
    if mic_closed {
        Seq::empty()
    } else {
        d.skip(min_len(d.len(), m.len()) as int)
    }
}

/// The microphone frames that stay buffered.
pub open spec fn mic_left<T>(d: Seq<T>, m: Seq<T>, desktop_closed: bool) -> Seq<T> {
    if desktop_closed {
        Seq::empty()
    } else {
        m.skip(min_len(d.len(), m.len()) as int)
    }
}

/// The desktop frames of a sequence of outputs, in order.
pub open spec fn desktop_part<T>(s: Seq<MixOutput<T>>) -> Seq<T>
    decreases s.len(),
{
    if s.len() == 0 {
        Seq::empty()
    } else {
        let rest = desktop_part(s.drop_first());
        match s[0] {
            MixOutput::Mixed(a, _) => seq![a] + rest,
            MixOutput::Desktop(a) => seq![a] + rest,
            MixOutput::Mic(_) => rest,
        }
    }
}

/// The microphone frames of a sequence of outputs, in order.
pub open spec fn mic_part<T>(s: Seq<MixOutput<T>>) -> Seq<T>
    decreases s.len(),
{
    if s.len() == 0 {
        Seq::empty()
    } else {
        let rest = mic_part(s.drop_first());
        match s[0] {
            MixOutput::Mixed(_, b) => seq![b] + rest,
            MixOutput::Mic(b) => seq![b] + rest,
            MixOutput::Desktop(_) => rest,
        }
    }
}

proof fn lemma_parts_concat<T>(a: Seq<MixOutput<T>>, b: Seq<MixOutput<T>>)
    ensures
        desktop_part(a + b) == desktop_part(a) + desktop_part(b),
        mic_part(a + b) == mic_part(a) + mic_part(b),
    decreases a.len(),
{
    if a.len() == 0 {
        assert(a + b =~= b);
        assert(desktop_part(a) + desktop_part(b) =~= desktop_part(b));
        assert(mic_part(a) + mic_part(b) =~= mic_part(b));
    } else {
        assert((a + b).drop_first() =~= a.drop_first() + b);
        assert((a + b)[0] == a[0]);
        lemma_parts_concat(a.drop_first(), b);
        match a[0] {
            MixOutput::Mixed(x, y) => {
                assert(seq![x] + (desktop_part(a.drop_first()) + desktop_part(b)) =~= (seq![x]
                    + desktop_part(a.drop_first())) + desktop_part(b));
                assert(seq![y] + (mic_part(a.drop_first()) + mic_part(b)) =~= (seq![y] + mic_part(
                    a.drop_first(),
                )) + mic_part(b));
            },
            MixOutput::Desktop(x) => {
                assert(seq![x] + (desktop_part(a.drop_first()) + desktop_part(b)) =~= (seq![x]
                    + desktop_part(a.drop_first())) + desktop_part(b));
            },
            MixOutput::Mic(y) => {
                assert(seq![y] + (mic_part(a.drop_first()) + mic_part(b)) =~= (seq![y] + mic_part(
                    a.drop_first(),
                )) + mic_part(b));
            },
        }
    }
}

proof fn lemma_paired_parts<T>(d: Seq<T>, m: Seq<T>)
    ensures
        desktop_part(paired(d, m)) == d.take(min_len(d.len(), m.len()) as int),
        mic_part(paired(d, m)) == m.take(min_len(d.len(), m.len()) as int),
    decreases d.len(),
{
    let n = min_len(d.len(), m.len());
    if n == 0 {
        assert(paired(d, m) =~= Seq::<MixOutput<T>>::empty());
        assert(d.take(0) =~= Seq::<T>::empty());
        assert(m.take(0) =~= Seq::<T>::empty());
    } else {
        let d1 = d.drop_first();
        let m1 = m.drop_first();
        lemma_paired_parts(d1, m1);
        assert(paired(d, m).drop_first() =~= paired(d1, m1));
        assert(d.take(n as int) =~= seq![d[0]] + d1.take(min_len(d1.len(), m1.len()) as int));
        assert(m.take(n as int) =~= seq![m[0]] + m1.take(min_len(d1.len(), m1.len()) as int));
    }
}

proof fn lemma_alone_parts<T>(d: Seq<T>, m: Seq<T>)
    ensures
        desktop_part(desktop_alone(d)) == d,
        mic_part(desktop_alone(d)) == Seq::<T>::empty(),
        desktop_part(mic_alone(m)) == Seq::<T>::empty(),
        mic_part(mic_alone(m)) == m,
    decreases d.len() + m.len(),
{
    if d.len() > 0 {
        lemma_alone_parts(d.drop_first(), m);
        assert(desktop_alone(d).drop_first() =~= desktop_alone(d.drop_first()));
        assert(d =~= seq![d[0]] + d.drop_first());
    }
    if m.len() > 0 {
        lemma_alone_parts(d, m.drop_first());
        assert(mic_alone(m).drop_first() =~= mic_alone(m.drop_first()));
        assert(m =~= seq![m[0]] + m.drop_first());
    }
    if d.len() == 0 {
        assert(desktop_alone(d) =~= Seq::<MixOutput<T>>::empty());
    }
    if m.len() == 0 {
        assert(mic_alone(m) =~= Seq::<MixOutput<T>>::empty());
    }
}

/// Mixing loses and repeats no frame: the desktop frames that are sent,
/// followed by those that stay buffered, are exactly the buffered desktop
/// frames, in order; the same holds of the microphone's. Once both streams
/// closed, nothing stays buffered.
pub proof fn lemma_mixing_keeps_every_frame<T>(d: Seq<T>, m: Seq<T>, desktop_closed: bool, mic_closed: bool)
    ensures
        desktop_part(mix_outputs(d, m, desktop_closed, mic_closed)) + desktop_left(d, m, mic_closed)
            == d,
        mic_part(mix_outputs(d, m, desktop_closed, mic_closed)) + mic_left(d, m, desktop_closed)
            == m,
        desktop_closed && mic_closed ==> desktop_left(d, m, mic_closed).len() == 0 && mic_left(
            d,
            m,
            desktop_closed,
        ).len() == 0,
{
    let n = min_len(d.len(), m.len()) as int;
    let p = paired(d, m);
    let ms: Seq<MixOutput<T>> = if desktop_closed {
        mic_alone(m.skip(n))
    } else {
        Seq::empty()
    };
    let ds: Seq<MixOutput<T>> = if mic_closed {
        desktop_alone(d.skip(n))
    } else {
        Seq::empty()
    };
    lemma_parts_concat(p, ms);
    lemma_parts_concat(p + ms, ds);
    lemma_paired_parts(d, m);
    lemma_alone_parts(d.skip(n), m.skip(n));
    assert(desktop_part(Seq::<MixOutput<T>>::empty()) =~= Seq::<T>::empty());
    assert(mic_part(Seq::<MixOutput<T>>::empty()) =~= Seq::<T>::empty());
    assert(d.take(n) + d.skip(n) =~= d);
    assert(m.take(n) + m.skip(n) =~= m);
    if d.len() <= m.len() {
        assert(d.skip(n) =~= Seq::<T>::empty());
    } else {
        assert(m.skip(n) =~= Seq::<T>::empty());
    }
    assert(desktop_part(mix_outputs(d, m, desktop_closed, mic_closed)) + desktop_left(
        d,
        m,
        mic_closed,
    ) =~= d);
    assert(mic_part(mix_outputs(d, m, desktop_closed, mic_closed)) + mic_left(
        d,
        m,
        desktop_closed,
    ) =~= m);
}

/// The frames of both sources waiting to be mixed, and which sources closed.
pub struct MixBuffers<T> {
    desktop: VecDeque<T>,
    mic: VecDeque<T>,
    desktop_done: bool,
    mic_done: bool,
}

impl<T> MixBuffers<T> {
    /// Buffered desktop frames, oldest first
    pub closed spec fn desktop_frames(&self) -> Seq<T> {
        self.desktop@
    }

    /// Buffered microphone frames, oldest first
    pub closed spec fn mic_frames(&self) -> Seq<T> {
        self.mic@
    }

    /// Whether the desktop stream closed
    pub closed spec fn desktop_closed(&self) -> bool {
        self.desktop_done
    }

    /// Whether the microphone closed
    pub closed spec fn mic_closed(&self) -> bool {
        self.mic_done
    }

    /// The buffers after an event, before anything is sent.
    pub open spec fn received(&self, e: MixEvent<T>) -> (Seq<T>, Seq<T>, bool, bool) {
        let (d, m, dc, mc) = (
            self.desktop_frames(),
            self.mic_frames(),
            self.desktop_closed(),
            self.mic_closed(),
        );
        match e {
            MixEvent::Desktop(f) => (d.push(f), m, dc, mc),
            MixEvent::DesktopClosed => (d, m, true, mc),
            MixEvent::Mic(f) => (d, m.push(f), dc, mc),
            MixEvent::MicClosed => (d, m, dc, true),
            MixEvent::Idle => (d, m, dc, mc),
        }
    }

    /// Empty buffers of two open streams
    pub fn new() -> (b: Self)
        ensures
            b.desktop_frames().len() == 0,
            b.mic_frames().len() == 0,
            !b.desktop_closed(),
            !b.mic_closed(),
    {
        MixBuffers { desktop: VecDeque::new(), mic: VecDeque::new(), desktop_done: false, mic_done: false }
    }

    /// Whether both streams closed: the mixing loop ends.
    pub fn finished(&self) -> (r: bool)
        ensures
            r == (self.desktop_closed() && self.mic_closed()),
    {
        self.desktop_done && self.mic_done
    }

    /// Whether the desktop stream is still read
    pub fn desktop_open(&self) -> (r: bool)
        ensures
            r == !self.desktop_closed(),
    {
        !self.desktop_done
    }

    /// Whether the microphone is still read
    pub fn mic_open(&self) -> (r: bool)
        ensures
            r == !self.mic_closed(),
    {
        !self.mic_done
    }

    /// Take in what the loop observed and return the frames to send: the
    /// frames of both sources paired in order, then, of a source whose
    /// partner closed, its frames alone.
    pub fn step(&mut self, event: MixEvent<T>) -> (out: Vec<MixOutput<T>>)
        ensures
            ({
                let (d, m, dc, mc) = old(self).received(event);
                &&& out@ == mix_outputs(d, m, dc, mc)
                &&& final(self).desktop_frames() == desktop_left(d, m, mc)
                &&& final(self).mic_frames() == mic_left(d, m, dc)
                &&& final(self).desktop_closed() == dc
                &&& final(self).mic_closed() == mc
            }),
    {
        match event {
            MixEvent::Desktop(f) => self.desktop.push_back(f),
            MixEvent::DesktopClosed => self.desktop_done = true,
            MixEvent::Mic(f) => self.mic.push_back(f),
            MixEvent::MicClosed => self.mic_done = true,
            MixEvent::Idle => {},
        }
        let ghost d = self.desktop@;
        let ghost m = self.mic@;
        let ghost dc = self.desktop_done;
        let ghost mc = self.mic_done;
        let ghost n = min_len(d.len(), m.len()) as int;
        let mut out: Vec<MixOutput<T>> = Vec::new();
        let ghost mut k: int = 0;
        while self.desktop.len() > 0 && self.mic.len() > 0
            invariant
                0 <= k <= n,
                self.desktop@ == d.skip(k),
                self.mic@ == m.skip(k),
                self.desktop_done == dc,
                self.mic_done == mc,
                out@ == paired(d, m).take(k),
                n == min_len(d.len(), m.len()),
            decreases self.desktop@.len(),
        {
            let a = self.desktop.pop_front();
            let b = self.mic.pop_front();
            match (a, b) {
                (Some(x), Some(y)) => {
                    out.push(MixOutput::Mixed(x, y));
                },
                _ => {},
            }
            proof {
                assert(d.skip(k).subrange(1, d.skip(k).len() as int) =~= d.skip(k + 1));
                assert(m.skip(k).subrange(1, m.skip(k).len() as int) =~= m.skip(k + 1));
                assert(paired(d, m).take(k + 1) =~= paired(d, m).take(k).push(
                    MixOutput::Mixed(d[k], m[k]),
                ));
                k = k + 1;
            }
        }
        assert(k == n);
        assert(out@ =~= paired(d, m));
        let ghost paired_out = out@;
        if self.desktop_done {
            let ghost rest = self.mic@;
            let ghost mut j: int = 0;
            while self.mic.len() > 0
                invariant
                    0 <= j <= rest.len(),
                    self.mic@ == rest.skip(j),
                    self.desktop@ == d.skip(n),
                    self.desktop_done == dc,
                    self.mic_done == mc,
                    out@ == paired_out + mic_alone(rest).take(j),
                decreases self.mic@.len(),
            {
                match self.mic.pop_front() {
                    Some(y) => out.push(MixOutput::Mic(y)),
                    None => {},
                }
                proof {
                    assert(rest.skip(j).subrange(1, rest.skip(j).len() as int) =~= rest.skip(j + 1));
                    assert(mic_alone(rest).take(j + 1) =~= mic_alone(rest).take(j).push(
                        MixOutput::Mic(rest[j]),
                    ));
                    j = j + 1;
                }
            }
            assert(mic_alone(rest).take(j) =~= mic_alone(rest));
        } else {
            assert(out@ =~= paired_out + Seq::<MixOutput<T>>::empty());
        }
        let ghost with_mic = out@;
        if self.mic_done {
            let ghost rest = self.desktop@;
            let ghost mid = self.mic@;
            let ghost mut j: int = 0;
            while self.desktop.len() > 0
                invariant
                    0 <= j <= rest.len(),
                    self.desktop@ == rest.skip(j),
                    self.mic@ == mid,
                    self.desktop_done == dc,
                    self.mic_done == mc,
                    out@ == with_mic + desktop_alone(rest).take(j),
                decreases self.desktop@.len(),
            {
                match self.desktop.pop_front() {
                    Some(x) => out.push(MixOutput::Desktop(x)),
                    None => {},
                }
                proof {
                    assert(rest.skip(j).subrange(1, rest.skip(j).len() as int) =~= rest.skip(j + 1));
                    assert(desktop_alone(rest).take(j + 1) =~= desktop_alone(rest).take(j).push(
                        MixOutput::Desktop(rest[j]),
                    ));
                    j = j + 1;
                }
            }
            assert(desktop_alone(rest).take(j) =~= desktop_alone(rest));
        } else {
            assert(out@ =~= with_mic + Seq::<MixOutput<T>>::empty());
        }
        proof {
            if dc {
                assert(self.mic@ =~= Seq::<T>::empty());
            }
            if mc {
                assert(self.desktop@ =~= Seq::<T>::empty());
            }
        }
        out
    }
}

} // verus!
