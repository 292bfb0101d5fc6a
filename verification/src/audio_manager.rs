//! The audio engine: the one owner of the active pack and of the volume and
//! mute settings. It takes commands one at a time and answers each with what
//! the audio device is to do.

use crate::pack::{Pack, PackView, FULL_VOLUME};
use vstd::prelude::*;

verus! {

/// The volume of a freshly started engine, in percent.
pub const INITIAL_VOLUME: u32 = 50;

/// How far the pitch of one play may lie from the recorded pitch, in
/// thousandths of a semitone: a quarter of a semitone either way.
pub const PITCH_SPREAD: i32 = 250;

/// How far the gain of one play may lie from the engine's gain, in
/// thousandths of a decibel: one decibel either way.
pub const GAIN_SPREAD: i32 = 1000;

/// A command to the engine. Commands are applied in the order in which they
/// were sent, one at a time.
#[derive(Debug)]
pub enum AudioMessage<S> {
    /// Sets the volume, in percent.
    SetVolume(u32),
    /// Mutes the engine, or ends the mute.
    ToggleMute,
    /// Makes a pack the active one and takes over its default volume.
    SetPack(Pack<S>),
    /// A key went down; the text is its identifier.
    KeyPressed(String),
    /// Ends the engine.
    Shutdown,
}

/// A command with its pack and its text as mathematical values.
pub enum MessageView<S> {
    SetVolume(u32),
    ToggleMute,
    SetPack(PackView<S>),
    KeyPressed(Seq<char>),
    Shutdown,
}

impl<S> View for AudioMessage<S> {
    type V = MessageView<S>;

    open spec fn view(&self) -> MessageView<S> {
        match self {
            AudioMessage::SetVolume(volume) => MessageView::SetVolume(*volume),
            AudioMessage::ToggleMute => MessageView::ToggleMute,
            AudioMessage::SetPack(pack) => MessageView::SetPack(pack@),
            AudioMessage::KeyPressed(key) => MessageView::KeyPressed(key@),
            AudioMessage::Shutdown => MessageView::Shutdown,
        }
    }
}

/// The gain that the audio device is asked for.
#[derive(Clone, Copy, Debug, PartialEq, Eq, Structural)]
pub enum Gain {
    /// The quietest gain that the device knows. It stands for volume zero,
    /// for which the decibel formula has no finite value.
    Floor,
    /// The gain of a volume from 1 to 100 percent: twenty times the decimal
    /// logarithm of the hundredth part of the volume, in decibels.
    Percent(u32),
}

/// The volume that a request comes to: nothing is louder than full volume.
pub open spec fn limited(volume: u32) -> u32 {
    if volume > FULL_VOLUME {
        FULL_VOLUME
    } else {
        volume
    }
}

/// The gain that belongs to a volume.
pub open spec fn gain_of(volume: u32) -> Gain {
    if volume == 0 {
        Gain::Floor
    } else {
        Gain::Percent(volume)
    }
}

/// The random deviation of one play, so that a key does not sound the same
/// every time.
#[derive(Clone, Copy, Debug, PartialEq, Eq, Structural)]
pub struct Jitter {
    /// Added to the pitch, in thousandths of a semitone.
    pub pitch: i32,
    /// Added to the gain, in thousandths of a decibel.
    pub gain: i32,
}

impl Jitter {
    /// Whether both deviations lie within their spread.
    pub open spec fn within_spread(self) -> bool {
        &&& -PITCH_SPREAD <= self.pitch <= PITCH_SPREAD
        &&& -GAIN_SPREAD <= self.gain <= GAIN_SPREAD
    }
}

/// One sound to play, with the deviation drawn for this play.
#[derive(Debug)]
pub struct Playback<'a, S> {
    /// The sound of the pressed key, or of the fallback entry.
    pub sound: &'a S,
    /// What to add to the recorded pitch and to the engine's gain.
    pub jitter: Jitter,
}

/// What the audio device is to do after a command.
#[derive(Debug)]
pub enum Action<'a, S> {
    /// Nothing.
    Idle,
    /// Take this gain for the plays that follow.
    SetGain(Gain),
    /// Play a sound.
    Play(Playback<'a, S>),
    /// End the engine: no further command is applied.
    Stop,
}

/// The settings of the engine as mathematical values.
pub struct ActorView<S> {
    /// Whether key presses stay silent.
    pub muted: bool,
    /// The volume, in percent.
    pub volume: u32,
    /// The active pack, if one was set.
    pub pack: Option<PackView<S>>,
}

impl<S> ActorView<S> {
    /// The settings of a freshly started engine.
    pub open spec fn initial() -> Self {
        ActorView { muted: false, volume: INITIAL_VOLUME, pack: None }
    }

    /// The settings after a command.
    pub open spec fn after(self, message: MessageView<S>) -> Self {
        match message {
            MessageView::SetVolume(volume) => ActorView { volume: limited(volume), ..self },
            MessageView::ToggleMute => ActorView { muted: !self.muted, ..self },
            MessageView::SetPack(pack) => ActorView {
                volume: limited(pack.default_volume),
                pack: Some(pack),
                ..self
            },
            MessageView::KeyPressed(_) => self,
            MessageView::Shutdown => self,
        }
    }

    /// The sound that the active pack has for a key, the fallback entry
    /// included. It does not look at the mute.
    pub open spec fn sound_for(self, key: Seq<char>) -> Option<S> {
        match self.pack {
            Some(pack) => pack.resolve(key),
            None => None,
        }
    }

    /// The sound that a command makes the engine play, if any: that of a key
    /// press while the engine is not muted.
    pub open spec fn triggered(self, message: MessageView<S>) -> Option<S> {
        match message {
            MessageView::KeyPressed(key) => if self.muted {
                None
            } else {
                self.sound_for(key)
            },
            _ => None,
        }
    }

    /// The gain that a command makes the engine ask for, if any: commands that
    /// set the volume do, the others leave the gain as it is.
    pub open spec fn gain_set(self, message: MessageView<S>) -> Option<Gain> {
        match message {
            MessageView::SetVolume(volume) => Some(gain_of(limited(volume))),
            MessageView::SetPack(pack) => Some(gain_of(limited(pack.default_volume))),
            _ => None,
        }
    }
}

/// `fastrand::Rng`, the generator of the random deviations. Its state is
/// hidden: nothing is known of the numbers that it will give.
#[verifier::external_type_specification]
#[verifier::external_body]
pub struct ExRng(fastrand::Rng);

/// `fastrand::Rng::new`: a new generator, seeded from the generator of the
/// thread. Nothing is claimed of it.
#[verifier::external_body]
fn fresh_rng() -> (rng: fastrand::Rng) {
    fastrand::Rng::new()
}

/// `fastrand::Rng::i32` on the closed range from `low` to `high`: it gives
/// some number of that range, and panics where the range is empty, which the
/// precondition rules out.
#[verifier::external_body]
fn draw(rng: &mut fastrand::Rng, low: i32, high: i32) -> (value: i32)
    requires
        low <= high,
    ensures
        low <= value <= high,
{
    rng.i32(low..=high)
}

/// A volume in percent, never above full volume.
#[derive(Clone, Copy, Debug)]
pub struct Volume {
    percent: u32,
}

impl View for Volume {
    type V = u32;

    closed spec fn view(&self) -> u32 {
        self.percent
    }
}

impl Volume {
    #[verifier::type_invariant]
    spec fn is_percentage(&self) -> bool {
        self.percent <= FULL_VOLUME
    }

    /// The volume that a request comes to.
    pub fn new(requested: u32) -> (volume: Volume)
        ensures
            volume@ == limited(requested),
    {
        if requested > FULL_VOLUME {
            Volume { percent: FULL_VOLUME }
        } else {
            Volume { percent: requested }
        }
    }

    /// The volume as a number from 0 to 100.
    pub fn percent(&self) -> (percent: u32)
        ensures
            percent == self@,
            percent <= FULL_VOLUME,
    {
        proof {
            use_type_invariant(self);
        }
        self.percent
    }

    /// The gain that belongs to the volume.
    pub fn gain(&self) -> (gain: Gain)
        ensures
            gain == gain_of(self@),
    {
        if self.percent == 0 {
            Gain::Floor
        } else {
            Gain::Percent(self.percent)
        }
    }
}

/// The audio engine's state. It is changed only by the commands given to
/// `handle`.
pub struct AudioManagerActor<S> {
    muted: bool,
    volume: Volume,
    pack: Option<Pack<S>>,
    rng: fastrand::Rng,
}

impl<S> View for AudioManagerActor<S> {
    type V = ActorView<S>;

    closed spec fn view(&self) -> ActorView<S> {
        ActorView {
            muted: self.muted,
            volume: self.volume@,
            pack: match self.pack {
                Some(pack) => Some(pack@),
                None => None,
            },
        }
    }
}

impl<S> AudioManagerActor<S> {
    /// An engine with no pack, not muted, at the initial volume.
    pub fn new() -> (actor: Self)
        ensures
            actor@ == ActorView::<S>::initial(),
    {
        AudioManagerActor {
            muted: false,
            volume: Volume::new(INITIAL_VOLUME),
            pack: None,
            rng: fresh_rng(),
        }
    }

    /// Whether key presses stay silent.
    pub fn muted(&self) -> (muted: bool)
        ensures
            muted == self@.muted,
    {
        self.muted
    }

    /// The volume, in percent.
    pub fn volume(&self) -> (volume: u32)
        ensures
            volume == self@.volume,
            volume <= FULL_VOLUME,
    {
        self.volume.percent()
    }

    /// The gain that belongs to the present volume.
    pub fn gain(&self) -> (gain: Gain)
        ensures
            gain == gain_of(self@.volume),
    {
        self.volume.gain()
    }

    /// The active pack, if one was set.
    pub fn pack(&self) -> (pack: Option<&Pack<S>>)
        ensures
            pack is Some <==> self@.pack is Some,
            pack matches Some(p) ==> self@.pack == Some(p@),
    {
        self.pack.as_ref()
    }

    fn update_volume(&mut self, volume: u32) -> (gain: Gain)
        ensures
            final(self)@ == (ActorView { volume: limited(volume), ..old(self)@ }),
            gain == gain_of(limited(volume)),
    {
        self.volume = Volume::new(volume);
        self.volume.gain()
    }

    /// The play that a press of `key` comes to, given the deviation drawn for
    /// it: the sound that the active pack has for the key, the fallback entry
    /// included, or nothing where there is no such sound or no pack. It does
    /// not look at the mute.
    pub fn playback_for<'a>(
        &'a self,
        key: &str,
        jitter: Jitter,
    ) -> (playback: Option<Playback<'a, S>>)
        ensures
            playback is Some <==> self@.sound_for(key@) is Some,
            playback matches Some(play) ==> self@.sound_for(key@) == Some(*play.sound)
                && play.jitter == jitter,
    {
        match &self.pack {
            Some(pack) => match pack.resolve(key) {
                Some(sound) => Some(Playback { sound, jitter }),
                None => None,
            },
            None => None,
        }
    }

    /// Draws the deviation of one play: one number for the pitch and one for
    /// the gain, each drawn for itself.
    fn draw_jitter(&mut self) -> (jitter: Jitter)
        ensures
            final(self)@ == old(self)@,
            jitter.within_spread(),
    {
        let pitch = draw(&mut self.rng, -PITCH_SPREAD, PITCH_SPREAD);
        let gain = draw(&mut self.rng, -GAIN_SPREAD, GAIN_SPREAD);
        Jitter { pitch, gain }
    }

    /// Answers a key press without looking at the mute: what `playback_for`
    /// gives with a deviation drawn anew for this press.
    pub fn handle_keypress<'a>(&'a mut self, key: &str) -> (playback: Option<Playback<'a, S>>)
        ensures
            final(self)@ == old(self)@,
            playback is Some <==> old(self)@.sound_for(key@) is Some,
            playback matches Some(play) ==> old(self)@.sound_for(key@) == Some(*play.sound)
                && play.jitter.within_spread(),
    {
        let jitter = self.draw_jitter();
        self.playback_for(key, jitter)
    }

    /// Applies one command and says what the audio device is to do.
    pub fn handle<'a>(&'a mut self, message: AudioMessage<S>) -> (action: Action<'a, S>)
        ensures
            final(self)@ == old(self)@.after(message@),
            action is Stop <==> message is Shutdown,
            action is Play <==> old(self)@.triggered(message@) is Some,
            action matches Action::Play(play) ==> old(self)@.triggered(message@) == Some(
                *play.sound,
            ) && play.jitter.within_spread(),
            action is SetGain <==> old(self)@.gain_set(message@) is Some,
            action matches Action::SetGain(gain) ==> old(self)@.gain_set(message@) == Some(gain),
            message matches AudioMessage::SetPack(pack) ==> final(self)@.volume
                == pack@.default_volume,
    {
        match message {
            AudioMessage::ToggleMute => {
                self.muted = !self.muted;
                Action::Idle
            },
            AudioMessage::SetVolume(volume) => Action::SetGain(self.update_volume(volume)),
            AudioMessage::SetPack(pack) => {
                let gain = self.update_volume(pack.default_volume());
                self.pack = Some(pack);
                Action::SetGain(gain)
            },
            AudioMessage::KeyPressed(key) => {
                if self.muted {
                    Action::Idle
                } else {
                    match self.handle_keypress(key.as_str()) {
                        Some(play) => Action::Play(play),
                        None => Action::Idle,
                    }
                }
            },
            AudioMessage::Shutdown => Action::Stop,
        }
    }

    /// Takes what the command queue gave: a command, which is applied, or
    /// `None` where every sender is gone, which ends the engine as `Shutdown`
    /// does.
    pub fn receive<'a>(&'a mut self, received: Option<AudioMessage<S>>) -> (action: Action<'a, S>)
        ensures
            received is None ==> action is Stop && final(self)@ == old(self)@,
            received matches Some(message) ==> {
                &&& final(self)@ == old(self)@.after(message@)
                &&& action is Stop <==> message is Shutdown
                &&& action is Play <==> old(self)@.triggered(message@) is Some
                &&& action matches Action::Play(play) ==> old(self)@.triggered(message@) == Some(
                    *play.sound,
                ) && play.jitter.within_spread()
                &&& action is SetGain <==> old(self)@.gain_set(message@) is Some
                &&& action matches Action::SetGain(gain) ==> old(self)@.gain_set(message@) == Some(
                    gain,
                )
            },
            received matches Some(AudioMessage::SetPack(pack)) ==> final(self)@.volume
                == pack@.default_volume,
    {
        match received {
            Some(message) => self.handle(message),
            None => Action::Stop,
        }
    }
}

/// The settings after a run of commands, applied one after the other in the
/// order of the run. The run ends at the first `Shutdown`: what follows it is
/// not applied.
pub open spec fn after_all<S>(state: ActorView<S>, messages: Seq<MessageView<S>>) -> ActorView<S>
    decreases messages.len(),
{
    if messages.len() == 0 || messages[0] is Shutdown {
        state
    } else {
        after_all(state.after(messages[0]), messages.drop_first())
    }
}

/// The sounds that a run of commands plays, in the order of the run, up to
/// the first `Shutdown`.
pub open spec fn sounds_played<S>(state: ActorView<S>, messages: Seq<MessageView<S>>) -> Seq<S>
    decreases messages.len(),
{
    if messages.len() == 0 || messages[0] is Shutdown {
        Seq::empty()
    } else {
        let first = match state.triggered(messages[0]) {
            Some(sound) => seq![sound],
            None => Seq::empty(),
        };
        first + sounds_played(state.after(messages[0]), messages.drop_first())
    }
}

/// Two mute toggles in a row leave every setting as it was.
pub proof fn lemma_toggle_mute_twice<S>(state: ActorView<S>)
    ensures
        state.after(MessageView::ToggleMute).after(MessageView::ToggleMute) == state,
        state.after(MessageView::ToggleMute).muted == !state.muted,
{
}

/// While the engine is muted, key presses play nothing and change nothing,
/// however many there are.
pub proof fn lemma_muted_key_presses_are_silent<S>(
    state: ActorView<S>,
    messages: Seq<MessageView<S>>,
)
    requires
        state.muted,
        forall|i: int| 0 <= i < messages.len() ==> #[trigger] messages[i] is KeyPressed,
    ensures
        sounds_played(state, messages) == Seq::<S>::empty(),
        after_all(state, messages) == state,
    decreases messages.len(),
{
    if messages.len() > 0 {
        let rest = messages.drop_first();
        assert forall|i: int| 0 <= i < rest.len() implies #[trigger] rest[i] is KeyPressed by {}
        lemma_muted_key_presses_are_silent(state, rest);
    }
}

/// Activating a pack sets the volume to the pack's default volume, whatever
/// the volume was, and asks the device for the gain of that volume.
pub proof fn lemma_set_pack_takes_default_volume<S>(state: ActorView<S>, pack: PackView<S>)
    requires
        pack.default_volume <= FULL_VOLUME,
    ensures
        state.after(MessageView::SetPack(pack)).volume == pack.default_volume,
        state.after(MessageView::SetPack(pack)).pack == Some(pack),
        state.after(MessageView::SetPack(pack)).muted == state.muted,
        state.gain_set(MessageView::SetPack(pack)) == Some(gain_of(pack.default_volume)),
{
}

/// The gain asked of the device always belongs to the volume: a command that
/// sets the volume asks for the gain of the new volume, and no other command
/// changes the volume. No volume is above full volume after it was set.
pub proof fn lemma_gain_follows_volume<S>(state: ActorView<S>, message: MessageView<S>)
    ensures
        match state.gain_set(message) {
            Some(gain) => gain == gain_of(state.after(message).volume) && state.after(
                message,
            ).volume <= FULL_VOLUME,
            None => state.after(message).volume == state.volume,
        },
        state.gain_set(message) == Some(Gain::Floor) <==> state.gain_set(message) is Some
            && state.after(message).volume == 0,
{
}

/// What a key press plays while the engine is not muted: the sound bound to
/// the key where the active pack binds it; else the sound of the fallback
/// entry where the pack has one; else nothing. Nothing either without a pack.
/// A key press never changes a setting.
pub proof fn lemma_key_press_resolution<S>(state: ActorView<S>, key: Seq<char>)
    requires
        !state.muted,
    ensures
        state.after(MessageView::KeyPressed(key)) == state,
        state.pack is None ==> state.triggered(MessageView::KeyPressed(key)) is None,
        state.pack matches Some(pack) ==> {
            let played = state.triggered(MessageView::KeyPressed(key));
            let fallback = crate::key::fallback_name();
            &&& pack.sounds.contains_key(key) ==> played == Some(pack.sounds[key])
            &&& !pack.sounds.contains_key(key) && pack.sounds.contains_key(fallback) ==> played
                == Some(pack.sounds[fallback])
            &&& !pack.sounds.contains_key(key) && !pack.sounds.contains_key(fallback)
                ==> played is None
        },
{
}

/// Applying two runs one after the other is applying them as one run: the
/// settings and the sounds played depend only on the order of the commands,
/// each applied whole before the next.
pub proof fn lemma_runs_compose<S>(
    state: ActorView<S>,
    first: Seq<MessageView<S>>,
    second: Seq<MessageView<S>>,
)
    requires
        forall|i: int| 0 <= i < first.len() ==> !(#[trigger] first[i] is Shutdown),
    ensures
        after_all(state, first + second) == after_all(after_all(state, first), second),
        sounds_played(state, first + second) == sounds_played(state, first) + sounds_played(
            after_all(state, first),
            second,
        ),
    decreases first.len(),
{
    if first.len() > 0 {
        let whole = first + second;
        let rest = first.drop_first();
        assert(whole.drop_first() =~= rest + second);
        assert forall|i: int| 0 <= i < rest.len() implies !(#[trigger] rest[i] is Shutdown) by {}
        lemma_runs_compose(state.after(first[0]), rest, second);
        let head = match state.triggered(first[0]) {
            Some(sound) => seq![sound],
            None => Seq::empty(),
        };
        assert((head + sounds_played(state.after(first[0]), rest)) + sounds_played(
            after_all(state, first),
            second,
        ) =~= head + (sounds_played(state.after(first[0]), rest) + sounds_played(
            after_all(state, first),
            second,
        )));
    }
}

/// Once a run reaches `Shutdown`, nothing that follows is applied or played.
pub proof fn lemma_shutdown_ends_run<S>(
    state: ActorView<S>,
    first: Seq<MessageView<S>>,
    rest: Seq<MessageView<S>>,
)
    requires
        forall|i: int| 0 <= i < first.len() ==> !(#[trigger] first[i] is Shutdown),
    ensures
        after_all(state, first + seq![MessageView::Shutdown] + rest) == after_all(state, first),
        sounds_played(state, first + seq![MessageView::Shutdown] + rest) == sounds_played(
            state,
            first,
        ),
{
    let tail = seq![MessageView::<S>::Shutdown] + rest;
    assert(first + seq![MessageView::Shutdown] + rest =~= first + tail);
    lemma_runs_compose(state, first, tail);
}

} // verus!
