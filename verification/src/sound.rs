//! Which sound a change of status makes.
use rand::seq::IndexedRandom;
use vstd::prelude::*;

use crate::session::Status;
use crate::text::{str_text, string_text, texts};

verus! {

/// How a sound is picked where a status has none of its own.
pub enum SoundMode {
    /// One of those that are available, at random.
    Random,
    /// Always this one.
    Specific(String),
}

/// The sound settings.
pub struct SoundConfig {
    pub enabled: bool,
    pub mode: SoundMode,
    /// The sounds of single statuses; an empty name counts as none.
    pub on_start: Option<String>,
    pub on_running: Option<String>,
    pub on_waiting: Option<String>,
    pub on_idle: Option<String>,
    pub on_error: Option<String>,
}

impl Default for SoundConfig {
    /// No sound.
    fn default() -> (res: Self)
        ensures
            !res.enabled,
            res.mode is Random,
            res.on_start is None,
            res.on_running is None,
            res.on_waiting is None,
            res.on_idle is None,
            res.on_error is None,
    {
        SoundConfig {
            enabled: false,
            mode: SoundMode::Random,
            on_start: None,
            on_running: None,
            on_waiting: None,
            on_idle: None,
            on_error: None,
        }
    }
}

/// What there is to hear.
pub enum Sound {
    Silence,
    Named(String),
    /// Any of those that are available.
    AnyAvailable,
}

/// A status that has a sound.
pub open spec fn has_sound(status: Status) -> bool {
    status == Status::Starting || status == Status::Running || status == Status::Waiting || status
        == Status::Idle || status == Status::Error
}

impl SoundConfig {
    /// The sound of a single status, if it is set.
    pub open spec fn own_sound(self, status: Status) -> Option<String> {
        match status {
            Status::Starting => self.on_start,
            Status::Running => self.on_running,
            Status::Waiting => self.on_waiting,
            Status::Idle => self.on_idle,
            Status::Error => self.on_error,
            _ => None,
        }
    }
}

/// What to play where a status' own sound is `own`: that one if it has a name,
/// else what the mode says.
pub open spec fn chosen(own: Option<Seq<char>>, mode: SoundMode, sound: Sound) -> bool {
    if own is Some && own->0.len() > 0 {
        sound matches Sound::Named(name) && name@ == own->0
    } else {
        match mode {
            SoundMode::Specific(name) => sound == Sound::Named(name),
            SoundMode::Random => sound is AnyAvailable,
        }
    }
}

/// `sound` is what a change from `old` to `new` makes: nothing where sounds are
/// off, where the status stays the same and for a status without a sound.
pub open spec fn sound_of(old: Status, new: Status, config: SoundConfig, sound: Sound) -> bool {
    if !config.enabled || old == new || !has_sound(new) {
        sound is Silence
    } else {
        chosen(string_text(config.own_sound(new)), config.mode, sound)
    }
}

/// `name` is what is heard of `sound` when `available` are there: where any
/// will do, one of them, and nothing only if there are none.
pub open spec fn heard(sound: Sound, available: Seq<Seq<char>>, name: Option<Seq<char>>) -> bool {
    match sound {
        Sound::Silence => name is None,
        Sound::Named(given) => name == Some(given@),
        Sound::AnyAvailable => if available.len() == 0 {
            name is None
        } else {
            name is Some && available.contains(name->0)
        },
    }
}

/// One of `sounds`, at random.
///
/// Calls `rand::seq::IndexedRandom::choose` with `rand::rng`. Taken on trust:
/// there is none exactly where the list is empty, and what comes back is in the
/// list; which one it is rests on chance. (`rand::rng` panics where the
/// operating system gives no random bytes.)
#[verifier::external_body]
fn choose_sound(sounds: &Vec<String>) -> (res: Option<String>)
    ensures
        res is None <==> sounds@.len() == 0,
        res matches Some(name) ==> sounds@.contains(name),
{
    sounds.choose(&mut rand::rng()).cloned()
}

/// What to play where a status' own sound is `override_name`.
pub fn select_sound(override_name: Option<&str>, mode: &SoundMode) -> (res: Sound)
    ensures
        chosen(str_text(override_name), *mode, res),
{
    if let Some(name) = override_name {
        if name.unicode_len() > 0 {
            return Sound::Named(name.to_owned());
        }
    }
    match mode {
        SoundMode::Specific(name) => Sound::Named(name.clone()),
        SoundMode::Random => Sound::AnyAvailable,
    }
}

/// The name of the file to play for `sound`, if there is any.
pub fn pick(sound: Sound, available: &Vec<String>) -> (res: Option<String>)
    ensures
        heard(sound, texts(available@), string_text(res)),
{
    match sound {
        Sound::Silence => None,
        Sound::Named(name) => Some(name),
        Sound::AnyAvailable => {
            let res = choose_sound(available);
            proof {
                if res is Some {
                    let i = available@.index_of(res->0);
                    assert(texts(available@)[i] == res->0@);
                }
            }
            res
        },
    }
}

/// The name of the sound where a status' own sound is `override_name`: that one
/// if it has a name, else what the mode says.
pub fn resolve_sound_name(
    override_name: Option<&str>,
    config: &SoundConfig,
    available: &Vec<String>,
) -> (res: Option<String>)
    ensures
        exists|sound: Sound| #[trigger]
            chosen(str_text(override_name), config.mode, sound) && heard(sound, texts(available@), string_text(res)),
{
    let sound = select_sound(override_name, &config.mode);
    pick(sound, available)
}

/// What a change of status makes to be heard.
pub fn sound_for_transition(old: Status, new: Status, config: &SoundConfig) -> (res: Sound)
    ensures
        sound_of(old, new, *config, res),
{
    if !config.enabled || old == new {
        return Sound::Silence;
    }
    let own = match new {
        Status::Starting => &config.on_start,
        Status::Running => &config.on_running,
        Status::Waiting => &config.on_waiting,
        Status::Idle => &config.on_idle,
        Status::Error => &config.on_error,
        _ => {
            return Sound::Silence;
        },
    };
    match own {
        Some(name) => select_sound(Some(name.as_str()), &config.mode),
        None => select_sound(None, &config.mode),
    }
}

/// The name of the sound to play for a change of status, if any.
pub fn play_for_transition(
    old: Status,
    new: Status,
    config: &SoundConfig,
    available: &Vec<String>,
) -> (res: Option<String>)
    ensures
        exists|sound: Sound| #[trigger]
            sound_of(old, new, *config, sound) && heard(sound, texts(available@), string_text(res)),
{
    let sound = sound_for_transition(old, new, config);
    pick(sound, available)
}

/// Nothing is heard where sounds are off, where the status stays the same, and
/// for a status without a sound.
pub proof fn law_silence(
    old: Status,
    new: Status,
    config: SoundConfig,
    sound: Sound,
    available: Seq<Seq<char>>,
    name: Option<Seq<char>>,
)
    requires
        sound_of(old, new, config, sound),
        heard(sound, available, name),
        !config.enabled || old == new || !has_sound(new),
    ensures
        name is None,
{
}

/// A status' own sound goes before the mode; an empty name does not count.
pub proof fn law_own_sound_first(
    old: Status,
    new: Status,
    config: SoundConfig,
    sound: Sound,
    available: Seq<Seq<char>>,
    name: Option<Seq<char>>,
)
    requires
        sound_of(old, new, config, sound),
        heard(sound, available, name),
        config.enabled,
        old != new,
        has_sound(new),
    ensures
        config.own_sound(new) is Some && config.own_sound(new)->0@.len() > 0 ==> name == Some(
            config.own_sound(new)->0@,
        ),
        config.own_sound(new) is None || config.own_sound(new)->0@.len() == 0 ==> match config.mode {
            SoundMode::Specific(given) => name == Some(given@),
            SoundMode::Random => if available.len() == 0 {
                name is None
            } else {
                name is Some && available.contains(name->0)
            },
        },
{
}

/// A change to a status that has a sound of its own set is heard by that name; to
/// one that has none, by the name of the mode or, where the mode leaves it open,
/// by one that is available. The other statuses, and no change, are silent.
pub proof fn law_change_is_heard(
    old: Status,
    new: Status,
    config: SoundConfig,
    sound: Sound,
    available: Seq<Seq<char>>,
    name: Option<Seq<char>>,
)
    requires
        sound_of(old, new, config, sound),
        heard(sound, available, name),
        config.enabled,
        old != new,
    ensures
        new == Status::Starting && config.on_start is Some && config.on_start->0@.len() > 0 ==> name
            == Some(config.on_start->0@),
        new == Status::Running && config.on_running is Some && config.on_running->0@.len() > 0
            ==> name == Some(config.on_running->0@),
        new == Status::Waiting && config.on_waiting is Some && config.on_waiting->0@.len() > 0
            ==> name == Some(config.on_waiting->0@),
        new == Status::Idle && config.on_idle is Some && config.on_idle->0@.len() > 0 ==> name
            == Some(config.on_idle->0@),
        new == Status::Error && config.on_error is Some && config.on_error->0@.len() > 0 ==> name
            == Some(config.on_error->0@),
        ({
            let unset = |own: Option<String>| own is None || own->0@.len() == 0;
            let by_mode = (new == Status::Starting && unset(config.on_start)) || (new
                == Status::Running && unset(config.on_running)) || (new == Status::Waiting && unset(
                config.on_waiting,
            )) || (new == Status::Idle && unset(config.on_idle)) || (new == Status::Error && unset(
                config.on_error,
            ));
            &&& by_mode ==> (config.mode matches SoundMode::Specific(given) ==> name == Some(
                given@,
            ))
            &&& by_mode && config.mode is Random && available.len() > 0 ==> name is Some
                && available.contains(name->0)
            &&& by_mode && config.mode is Random && available.len() == 0 ==> name is None
        }),
        new == Status::Unknown || new == Status::Stopped || new == Status::Hibernated || new
            == Status::Deleting || new == Status::Creating ==> name is None,
{
}

/// A name that is given goes before the mode, an empty one counts as none, and
/// what is then heard is that name, the mode's, or one that is available.
pub proof fn law_given_name_goes_before_the_mode(
    own: Option<Seq<char>>,
    mode: SoundMode,
    sound: Sound,
    available: Seq<Seq<char>>,
    name: Option<Seq<char>>,
)
    requires
        chosen(own, mode, sound),
        heard(sound, available, name),
    ensures
        own is Some && own->0.len() > 0 ==> name == own,
        own is None || own->0.len() == 0 ==> (mode matches SoundMode::Specific(given) ==> name
            == Some(given@)),
        (own is None || own->0.len() == 0) && mode is Random ==> (name is None <==> available.len()
            == 0),
        (own is None || own->0.len() == 0) && mode is Random && name is Some ==> available.contains(
            name->0,
        ),
{
}

/// The name that is played for a change is the status' own if it has one, else the
/// mode's, else one of those available; nothing is played where sounds are off,
/// nothing changed, or the status has no sound.
pub proof fn law_play_for_transition_plays_the_right_one(
    old: Status,
    new: Status,
    config: &SoundConfig,
    available: &Vec<String>,
    res: Option<String>,
)
    requires
        call_ensures(play_for_transition, (old, new, config, available), res),
    ensures
        !config.enabled || old == new ==> res is None,
        new == Status::Unknown || new == Status::Stopped || new == Status::Hibernated || new
            == Status::Deleting || new == Status::Creating ==> res is None,
        config.enabled && old != new ==> {
            &&& new == Status::Starting ==> plays(config.on_start, config.mode, available@, res)
            &&& new == Status::Running ==> plays(config.on_running, config.mode, available@, res)
            &&& new == Status::Waiting ==> plays(config.on_waiting, config.mode, available@, res)
            &&& new == Status::Idle ==> plays(config.on_idle, config.mode, available@, res)
            &&& new == Status::Error ==> plays(config.on_error, config.mode, available@, res)
        },
{
    assert(texts(available@).len() == available@.len());
}

/// `res` is the name `own` if that is not empty, else the mode's, else one of those
/// available, if there are any.
pub open spec fn plays(
    own: Option<String>,
    mode: SoundMode,
    available: Seq<String>,
    res: Option<String>,
) -> bool {
    &&& own is Some && own->0@.len() > 0 ==> res is Some && res->0@ == own->0@
    &&& own is None || own->0@.len() == 0 ==> {
        &&& mode matches SoundMode::Specific(name) ==> res is Some && res->0@ == name@
        &&& mode is Random ==> (res is None <==> available.len() == 0)
        &&& mode is Random && res is Some ==> texts(available).contains(res->0@)
    }
}

/// A name that is given is taken, an empty one is not, and then the mode decides.
pub proof fn law_resolve_takes_the_given_name(
    given: Option<&str>,
    config: &SoundConfig,
    available: &Vec<String>,
    res: Option<String>,
)
    requires
        call_ensures(resolve_sound_name, (given, config, available), res),
    ensures
        given matches Some(name) ==> name@.len() > 0 ==> res is Some && res->0@ == name@,
        given is None || given->0@.len() == 0 ==> {
            &&& config.mode matches SoundMode::Specific(name) ==> res is Some && res->0@ == name@
            &&& config.mode is Random ==> (res is None <==> available@.len() == 0)
            &&& config.mode is Random && res is Some ==> texts(available@).contains(res->0@)
        },
{
    assert(texts(available@).len() == available@.len());
}

/// A sound that is chosen is played by its name, and one that is left open by one of
/// those available.
pub proof fn law_chosen_sound_is_played(
    given: Option<&str>,
    mode: &SoundMode,
    sound: Sound,
    available: &Vec<String>,
    res: Option<String>,
    quiet: Option<String>,
)
    requires
        call_ensures(select_sound, (given, mode), sound),
        call_ensures(pick, (sound, available), res),
        call_ensures(pick, (Sound::Silence, available), quiet),
    ensures
        quiet is None,
        !(sound is Silence),
        given matches Some(name) ==> name@.len() > 0 ==> res is Some && res->0@ == name@,
        sound is AnyAvailable <==> (given is None || given->0@.len() == 0) && *mode is Random,
        sound is AnyAvailable ==> (res is None <==> available@.len() == 0),
        sound matches Sound::Named(name) ==> res is Some && res->0@ == name@,
{
    assert(texts(available@).len() == available@.len());
}

} // verus!
