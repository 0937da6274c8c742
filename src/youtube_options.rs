//! Closed choice sets of the video search endpoint, each variant mapped to
//! exactly one wire literal.
use vstd::prelude::*;

verus! {

/// A closed set of choices, each sent as one fixed literal.
pub trait WireLiteral: Sized {
    /// The literal the endpoint expects for this choice.
    spec fn wire(self) -> Seq<char>;

    /// The literal the endpoint expects for this choice.
    fn to_string(&self) -> (r: String)
        ensures
            r@ == self.wire(),
    ;
}

/// The kind of video a search is restricted to.
#[derive(Debug, Clone, Copy, PartialEq, Eq, Structural)]
pub enum VideoType {
    Any,
    Episode,
    Movie,
}

impl WireLiteral for VideoType {
    open spec fn wire(self) -> Seq<char> {
        match self {
            VideoType::Any => "any"@,
            VideoType::Episode => "episode"@,
            VideoType::Movie => "movie"@,
        }
    }

    fn to_string(&self) -> (r: String) {
        let s = match self {
            VideoType::Any => "any",
            VideoType::Episode => "episode",
            VideoType::Movie => "movie",
        };
        s.to_owned()
    }
}

/// Distinct choices are sent as distinct literals, so a literal names one
/// choice only.
pub proof fn lemma_video_type_wire_injective(a: VideoType, b: VideoType)
    requires
        a.wire() == b.wire(),
    ensures
        a == b,
{
    reveal_strlit("any");
    reveal_strlit("episode");
    reveal_strlit("movie");
    assert("any"@ =~= seq!['a', 'n', 'y']);
    assert("episode"@ =~= seq!['e', 'p', 'i', 's', 'o', 'd', 'e']);
    assert("movie"@ =~= seq!['m', 'o', 'v', 'i', 'e']);
}

/// Whether results must be playable outside the platform.
#[derive(Debug, Clone, Copy, PartialEq, Eq, Structural)]
pub enum VideoSyndicated {
    Any,
    True,
}

impl WireLiteral for VideoSyndicated {
    open spec fn wire(self) -> Seq<char> {
        match self {
            VideoSyndicated::Any => "any"@,
            VideoSyndicated::True => "true"@,
        }
    }

    fn to_string(&self) -> (r: String) {
        let s = match self {
            VideoSyndicated::Any => "any",
            VideoSyndicated::True => "true",
        };
        s.to_owned()
    }
}

/// Distinct choices are sent as distinct literals, so a literal names one
/// choice only.
pub proof fn lemma_video_syndicated_wire_injective(a: VideoSyndicated, b: VideoSyndicated)
    requires
        a.wire() == b.wire(),
    ensures
        a == b,
{
    reveal_strlit("any");
    reveal_strlit("true");
    assert("any"@ =~= seq!['a', 'n', 'y']);
    assert("true"@ =~= seq!['t', 'r', 'u', 'e']);
}

/// Whether results must carry a paid product placement.
#[derive(Debug, Clone, Copy, PartialEq, Eq, Structural)]
pub enum VideoPaidProductPlacement {
    Any,
    True,
}

impl WireLiteral for VideoPaidProductPlacement {
    open spec fn wire(self) -> Seq<char> {
        match self {
            VideoPaidProductPlacement::Any => "any"@,
            VideoPaidProductPlacement::True => "true"@,
        }
    }

    fn to_string(&self) -> (r: String) {
        let s = match self {
            VideoPaidProductPlacement::Any => "any",
            VideoPaidProductPlacement::True => "true",
        };
        s.to_owned()
    }
}

/// Distinct choices are sent as distinct literals, so a literal names one
/// choice only.
pub proof fn lemma_video_paid_product_placement_wire_injective(a: VideoPaidProductPlacement, b: VideoPaidProductPlacement)
    requires
        a.wire() == b.wire(),
    ensures
        a == b,
{
    reveal_strlit("any");
    reveal_strlit("true");
    assert("any"@ =~= seq!['a', 'n', 'y']);
    assert("true"@ =~= seq!['t', 'r', 'u', 'e']);
}

/// The license that results must carry.
#[derive(Debug, Clone, Copy, PartialEq, Eq, Structural)]
pub enum VideoLicense {
    Any,
    CreativeCommon,
    Youtube,
}

impl WireLiteral for VideoLicense {
    open spec fn wire(self) -> Seq<char> {
        match self {
            VideoLicense::Any => "any"@,
            VideoLicense::CreativeCommon => "creativeCommon"@,
            VideoLicense::Youtube => "youtube"@,
        }
    }

    fn to_string(&self) -> (r: String) {
        let s = match self {
            VideoLicense::Any => "any",
            VideoLicense::CreativeCommon => "creativeCommon",
            VideoLicense::Youtube => "youtube",
        };
        s.to_owned()
    }
}

/// Distinct choices are sent as distinct literals, so a literal names one
/// choice only.
pub proof fn lemma_video_license_wire_injective(a: VideoLicense, b: VideoLicense)
    requires
        a.wire() == b.wire(),
    ensures
        a == b,
{
    reveal_strlit("any");
    reveal_strlit("creativeCommon");
    reveal_strlit("youtube");
    assert("any"@ =~= seq!['a', 'n', 'y']);
    assert("creativeCommon"@ =~= seq!['c', 'r', 'e', 'a', 't', 'i', 'v', 'e', 'C', 'o', 'm', 'm', 'o', 'n']);
    assert("youtube"@ =~= seq!['y', 'o', 'u', 't', 'u', 'b', 'e']);
}

/// Whether results must be embeddable in other pages.
#[derive(Debug, Clone, Copy, PartialEq, Eq, Structural)]
pub enum VideoEmbeddable {
    Any,
    True,
}

impl WireLiteral for VideoEmbeddable {
    open spec fn wire(self) -> Seq<char> {
        match self {
            VideoEmbeddable::Any => "any"@,
            VideoEmbeddable::True => "true"@,
        }
    }

    fn to_string(&self) -> (r: String) {
        let s = match self {
            VideoEmbeddable::Any => "any",
            VideoEmbeddable::True => "true",
        };
        s.to_owned()
    }
}

/// Distinct choices are sent as distinct literals, so a literal names one
/// choice only.
pub proof fn lemma_video_embeddable_wire_injective(a: VideoEmbeddable, b: VideoEmbeddable)
    requires
        a.wire() == b.wire(),
    ensures
        a == b,
{
    reveal_strlit("any");
    reveal_strlit("true");
    assert("any"@ =~= seq!['a', 'n', 'y']);
    assert("true"@ =~= seq!['t', 'r', 'u', 'e']);
}

/// The definition (high or standard) that results must have.
#[derive(Debug, Clone, Copy, PartialEq, Eq, Structural)]
pub enum VideoDefinition {
    Any,
    High,
    Standard,
}

impl WireLiteral for VideoDefinition {
    open spec fn wire(self) -> Seq<char> {
        match self {
            VideoDefinition::Any => "any"@,
            VideoDefinition::High => "high"@,
            VideoDefinition::Standard => "standard"@,
        }
    }

    fn to_string(&self) -> (r: String) {
        let s = match self {
            VideoDefinition::Any => "any",
            VideoDefinition::High => "high",
            VideoDefinition::Standard => "standard",
        };
        s.to_owned()
    }
}

/// Distinct choices are sent as distinct literals, so a literal names one
/// choice only.
pub proof fn lemma_video_definition_wire_injective(a: VideoDefinition, b: VideoDefinition)
    requires
        a.wire() == b.wire(),
    ensures
        a == b,
{
    reveal_strlit("any");
    reveal_strlit("high");
    reveal_strlit("standard");
    assert("any"@ =~= seq!['a', 'n', 'y']);
    assert("high"@ =~= seq!['h', 'i', 'g', 'h']);
    assert("standard"@ =~= seq!['s', 't', 'a', 'n', 'd', 'a', 'r', 'd']);
}

/// Whether results must have captions.
#[derive(Debug, Clone, Copy, PartialEq, Eq, Structural)]
pub enum VideoCaption {
    Any,
    ClosedCaption,
    NoCaption,
}

impl WireLiteral for VideoCaption {
    open spec fn wire(self) -> Seq<char> {
        match self {
            VideoCaption::Any => "any"@,
            VideoCaption::ClosedCaption => "closedCaption"@,
            VideoCaption::NoCaption => "none"@,
        }
    }

    fn to_string(&self) -> (r: String) {
        let s = match self {
            VideoCaption::Any => "any",
            VideoCaption::ClosedCaption => "closedCaption",
            VideoCaption::NoCaption => "none",
        };
        s.to_owned()
    }
}

/// Distinct choices are sent as distinct literals, so a literal names one
/// choice only.
pub proof fn lemma_video_caption_wire_injective(a: VideoCaption, b: VideoCaption)
    requires
        a.wire() == b.wire(),
    ensures
        a == b,
{
    reveal_strlit("any");
    reveal_strlit("closedCaption");
    reveal_strlit("none");
    assert("any"@ =~= seq!['a', 'n', 'y']);
    assert("closedCaption"@ =~= seq!['c', 'l', 'o', 's', 'e', 'd', 'C', 'a', 'p', 't', 'i', 'o', 'n']);
    assert("none"@ =~= seq!['n', 'o', 'n', 'e']);
}

/// The kind of resource a search returns.
#[derive(Debug, Clone, Copy, PartialEq, Eq, Structural)]
pub enum Type {
    Channel,
    Playlist,
    Video,
}

impl WireLiteral for Type {
    open spec fn wire(self) -> Seq<char> {
        match self {
            Type::Channel => "channel"@,
            Type::Playlist => "playlist"@,
            Type::Video => "video"@,
        }
    }

    fn to_string(&self) -> (r: String) {
        let s = match self {
            Type::Channel => "channel",
            Type::Playlist => "playlist",
            Type::Video => "video",
        };
        s.to_owned()
    }
}

/// Distinct choices are sent as distinct literals, so a literal names one
/// choice only.
pub proof fn lemma_type_wire_injective(a: Type, b: Type)
    requires
        a.wire() == b.wire(),
    ensures
        a == b,
{
    reveal_strlit("channel");
    reveal_strlit("playlist");
    reveal_strlit("video");
    assert("channel"@ =~= seq!['c', 'h', 'a', 'n', 'n', 'e', 'l']);
    assert("playlist"@ =~= seq!['p', 'l', 'a', 'y', 'l', 'i', 's', 't']);
    assert("video"@ =~= seq!['v', 'i', 'd', 'e', 'o']);
}

/// The duration band that results must fall in.
#[derive(Debug, Clone, Copy, PartialEq, Eq, Structural)]
pub enum VideoDuration {
    Any,
    Long,
    Medium,
    Short,
}

impl WireLiteral for VideoDuration {
    open spec fn wire(self) -> Seq<char> {
        match self {
            VideoDuration::Any => "any"@,
            VideoDuration::Long => "long"@,
            VideoDuration::Medium => "medium"@,
            VideoDuration::Short => "short"@,
        }
    }

    fn to_string(&self) -> (r: String) {
        let s = match self {
            VideoDuration::Any => "any",
            VideoDuration::Long => "long",
            VideoDuration::Medium => "medium",
            VideoDuration::Short => "short",
        };
        s.to_owned()
    }
}

/// Distinct choices are sent as distinct literals, so a literal names one
/// choice only.
pub proof fn lemma_video_duration_wire_injective(a: VideoDuration, b: VideoDuration)
    requires
        a.wire() == b.wire(),
    ensures
        a == b,
{
    reveal_strlit("any");
    reveal_strlit("long");
    reveal_strlit("medium");
    reveal_strlit("short");
    assert("any"@ =~= seq!['a', 'n', 'y']);
    assert("long"@ =~= seq!['l', 'o', 'n', 'g']);
    assert("medium"@ =~= seq!['m', 'e', 'd', 'i', 'u', 'm']);
    assert("short"@ =~= seq!['s', 'h', 'o', 'r', 't']);
}

/// Whether results must be two- or three-dimensional.
#[derive(Debug, Clone, Copy, PartialEq, Eq, Structural)]
pub enum VideoDimension {
    Any,
    _2d,
    _3d,
}

impl WireLiteral for VideoDimension {
    open spec fn wire(self) -> Seq<char> {
        match self {
            VideoDimension::Any => "any"@,
            VideoDimension::_2d => "2d"@,
            VideoDimension::_3d => "3d"@,
        }
    }

    fn to_string(&self) -> (r: String) {
        let s = match self {
            VideoDimension::Any => "any",
            VideoDimension::_2d => "2d",
            VideoDimension::_3d => "3d",
        };
        s.to_owned()
    }
}

/// Distinct choices are sent as distinct literals, so a literal names one
/// choice only.
pub proof fn lemma_video_dimension_wire_injective(a: VideoDimension, b: VideoDimension)
    requires
        a.wire() == b.wire(),
    ensures
        a == b,
{
    reveal_strlit("any");
    reveal_strlit("2d");
    reveal_strlit("3d");
    assert("any"@ =~= seq!['a', 'n', 'y']);
    assert("2d"@ =~= seq!['2', 'd']);
    assert("3d"@ =~= seq!['3', 'd']);
}

/// A topic identifier that results must be associated with.
#[derive(Debug, Clone, Copy, PartialEq, Eq, Structural)]
pub enum Topic {
    Music,
    ChristianMusic,
    ClassicalMusic,
    Country,
    ElectronicMusic,
    HipHopMusic,
    IndependentMusic,
    Jazz,
    MusicOfAsia,
    MusicOfLatinAmerica,
    PopMusic,
    Reggae,
    RhythmAndBlues,
    RockMusic,
    SoulMusic,
    Gaming,
    ActionGame,
    ActionAdventureGame,
    CasualGame,
    MusicVideoGame,
    PuzzleVideoGame,
    RacingVideoGame,
    RolePlayingVideoGame,
    SimulationVideoGame,
    SportsVideoGame,
    StrategyVideoGame,
    Sports,
    AmericanFootball,
    Baseball,
    Basketball,
    Boxing,
    Cricket,
    Football,
    Golf,
    IceHockey,
    MixedMartialArts,
    Motorsport,
    Tennis,
    Volleyball,
    Entertainment,
    Humor,
    Movies,
    PerformingArts,
    PreofessionalWrestling,
    TvShows,
    Lifestyle,
    Fashion,
    Fitness,
    Food,
    Hobby,
    Pets,
    PhysicalAttractiveness,
    Technology,
    Tourism,
    Vehicles,
    Society,
    Business,
    Health,
    Military,
    Politics,
    Religion,
    Knowledge,
}

impl WireLiteral for Topic {
    open spec fn wire(self) -> Seq<char> {
        match self {
            Topic::Music => "/m/04rlf"@,
            Topic::ChristianMusic => "/m/02mscn"@,
            Topic::ClassicalMusic => "/m/0ggq0m"@,
            Topic::Country => "/m/01lyv"@,
            Topic::ElectronicMusic => "/m/02lkt"@,
            Topic::HipHopMusic => "/m/0glt670"@,
            Topic::IndependentMusic => "/m/05rwpb"@,
            Topic::Jazz => "/m/03_d0"@,
            Topic::MusicOfAsia => "/m/028sqc"@,
            Topic::MusicOfLatinAmerica => "/m/0g293"@,
            Topic::PopMusic => "/m/064t9"@,
            Topic::Reggae => "/m/06cqb"@,
            Topic::RhythmAndBlues => "/m/06j6l"@,
            Topic::RockMusic => "/m/06by7"@,
            Topic::SoulMusic => "/m/0gywn"@,
            Topic::Gaming => "/m/0bzvm2"@,
            Topic::ActionGame => "/m/025zzc"@,
            Topic::ActionAdventureGame => "/m/02ntfj"@,
            Topic::CasualGame => "/m/0b1vjn"@,
            Topic::MusicVideoGame => "/m/02hygl"@,
            Topic::PuzzleVideoGame => "/m/04q1x3q"@,
            Topic::RacingVideoGame => "/m/01sjng"@,
            Topic::RolePlayingVideoGame => "/m/0403l3g"@,
            Topic::SimulationVideoGame => "/m/021bp2"@,
            Topic::SportsVideoGame => "/m/022dc6"@,
            Topic::StrategyVideoGame => "/m/03hf_rm"@,
            Topic::Sports => "/m/06ntj"@,
            Topic::AmericanFootball => "/m/0jm_"@,
            Topic::Baseball => "/m/018jz"@,
            Topic::Basketball => "/m/018w8"@,
            Topic::Boxing => "/m/01cgz"@,
            Topic::Cricket => "/m/09xp_"@,
            Topic::Football => "/m/02vx4"@,
            Topic::Golf => "/m/037hz"@,
            Topic::IceHockey => "/m/03tmr"@,
            Topic::MixedMartialArts => "/m/01h7lh"@,
            Topic::Motorsport => "/m/0410tth"@,
            Topic::Tennis => "/m/07bs0"@,
            Topic::Volleyball => "/m/07_53"@,
            Topic::Entertainment => "/m/02jjt"@,
            Topic::Humor => "/m/09kqc"@,
            Topic::Movies => "/m/02vxn"@,
            Topic::PerformingArts => "/m/05qjc"@,
            Topic::PreofessionalWrestling => "/m/066wd"@,
            Topic::TvShows => "/m/0f2f9"@,
            Topic::Lifestyle => "/m/019_rr"@,
            Topic::Fashion => "/m/032tl"@,
            Topic::Fitness => "/m/027x7n"@,
            Topic::Food => "/m/02wbm"@,
            Topic::Hobby => "/m/03glg"@,
            Topic::Pets => "/m/068hy"@,
            Topic::PhysicalAttractiveness => "/m/041xxh"@,
            Topic::Technology => "/m/07c1v"@,
            Topic::Tourism => "/m/07bxq"@,
            Topic::Vehicles => "/m/07yv9"@,
            Topic::Society => "/m/098wr"@,
            Topic::Business => "/m/09s1f"@,
            Topic::Health => "/m/0kt51"@,
            Topic::Military => "/m/01h6rj"@,
            Topic::Politics => "/m/05qt0"@,
            Topic::Religion => "/m/06bvp"@,
            Topic::Knowledge => "/m/01k8wb"@,
        }
    }

    fn to_string(&self) -> (r: String) {
        let s = match self {
            Topic::Music => "/m/04rlf",
            Topic::ChristianMusic => "/m/02mscn",
            Topic::ClassicalMusic => "/m/0ggq0m",
            Topic::Country => "/m/01lyv",
            Topic::ElectronicMusic => "/m/02lkt",
            Topic::HipHopMusic => "/m/0glt670",
            Topic::IndependentMusic => "/m/05rwpb",
            Topic::Jazz => "/m/03_d0",
            Topic::MusicOfAsia => "/m/028sqc",
            Topic::MusicOfLatinAmerica => "/m/0g293",
            Topic::PopMusic => "/m/064t9",
            Topic::Reggae => "/m/06cqb",
            Topic::RhythmAndBlues => "/m/06j6l",
            Topic::RockMusic => "/m/06by7",
            Topic::SoulMusic => "/m/0gywn",
            Topic::Gaming => "/m/0bzvm2",
            Topic::ActionGame => "/m/025zzc",
            Topic::ActionAdventureGame => "/m/02ntfj",
            Topic::CasualGame => "/m/0b1vjn",
            Topic::MusicVideoGame => "/m/02hygl",
            Topic::PuzzleVideoGame => "/m/04q1x3q",
            Topic::RacingVideoGame => "/m/01sjng",
            Topic::RolePlayingVideoGame => "/m/0403l3g",
            Topic::SimulationVideoGame => "/m/021bp2",
            Topic::SportsVideoGame => "/m/022dc6",
            Topic::StrategyVideoGame => "/m/03hf_rm",
            Topic::Sports => "/m/06ntj",
            Topic::AmericanFootball => "/m/0jm_",
            Topic::Baseball => "/m/018jz",
            Topic::Basketball => "/m/018w8",
            Topic::Boxing => "/m/01cgz",
            Topic::Cricket => "/m/09xp_",
            Topic::Football => "/m/02vx4",
            Topic::Golf => "/m/037hz",
            Topic::IceHockey => "/m/03tmr",
            Topic::MixedMartialArts => "/m/01h7lh",
            Topic::Motorsport => "/m/0410tth",
            Topic::Tennis => "/m/07bs0",
            Topic::Volleyball => "/m/07_53",
            Topic::Entertainment => "/m/02jjt",
            Topic::Humor => "/m/09kqc",
            Topic::Movies => "/m/02vxn",
            Topic::PerformingArts => "/m/05qjc",
            Topic::PreofessionalWrestling => "/m/066wd",
            Topic::TvShows => "/m/0f2f9",
            Topic::Lifestyle => "/m/019_rr",
            Topic::Fashion => "/m/032tl",
            Topic::Fitness => "/m/027x7n",
            Topic::Food => "/m/02wbm",
            Topic::Hobby => "/m/03glg",
            Topic::Pets => "/m/068hy",
            Topic::PhysicalAttractiveness => "/m/041xxh",
            Topic::Technology => "/m/07c1v",
            Topic::Tourism => "/m/07bxq",
            Topic::Vehicles => "/m/07yv9",
            Topic::Society => "/m/098wr",
            Topic::Business => "/m/09s1f",
            Topic::Health => "/m/0kt51",
            Topic::Military => "/m/01h6rj",
            Topic::Politics => "/m/05qt0",
            Topic::Religion => "/m/06bvp",
            Topic::Knowledge => "/m/01k8wb",
        };
        s.to_owned()
    }
}

/// Distinct choices are sent as distinct literals, so a literal names one
/// choice only.
pub proof fn lemma_topic_wire_injective(a: Topic, b: Topic)
    requires
        a.wire() == b.wire(),
    ensures
        a == b,
{
    reveal_strlit("/m/04rlf");
    reveal_strlit("/m/02mscn");
    reveal_strlit("/m/0ggq0m");
    reveal_strlit("/m/01lyv");
    reveal_strlit("/m/02lkt");
    reveal_strlit("/m/0glt670");
    reveal_strlit("/m/05rwpb");
    reveal_strlit("/m/03_d0");
    reveal_strlit("/m/028sqc");
    reveal_strlit("/m/0g293");
    reveal_strlit("/m/064t9");
    reveal_strlit("/m/06cqb");
    reveal_strlit("/m/06j6l");
    reveal_strlit("/m/06by7");
    reveal_strlit("/m/0gywn");
    reveal_strlit("/m/0bzvm2");
    reveal_strlit("/m/025zzc");
    reveal_strlit("/m/02ntfj");
    reveal_strlit("/m/0b1vjn");
    reveal_strlit("/m/02hygl");
    reveal_strlit("/m/04q1x3q");
    reveal_strlit("/m/01sjng");
    reveal_strlit("/m/0403l3g");
    reveal_strlit("/m/021bp2");
    reveal_strlit("/m/022dc6");
    reveal_strlit("/m/03hf_rm");
    reveal_strlit("/m/06ntj");
    reveal_strlit("/m/0jm_");
    reveal_strlit("/m/018jz");
    reveal_strlit("/m/018w8");
    reveal_strlit("/m/01cgz");
    reveal_strlit("/m/09xp_");
    reveal_strlit("/m/02vx4");
    reveal_strlit("/m/037hz");
    reveal_strlit("/m/03tmr");
    reveal_strlit("/m/01h7lh");
    reveal_strlit("/m/0410tth");
    reveal_strlit("/m/07bs0");
    reveal_strlit("/m/07_53");
    reveal_strlit("/m/02jjt");
    reveal_strlit("/m/09kqc");
    reveal_strlit("/m/02vxn");
    reveal_strlit("/m/05qjc");
    reveal_strlit("/m/066wd");
    reveal_strlit("/m/0f2f9");
    reveal_strlit("/m/019_rr");
    reveal_strlit("/m/032tl");
    reveal_strlit("/m/027x7n");
    reveal_strlit("/m/02wbm");
    reveal_strlit("/m/03glg");
    reveal_strlit("/m/068hy");
    reveal_strlit("/m/041xxh");
    reveal_strlit("/m/07c1v");
    reveal_strlit("/m/07bxq");
    reveal_strlit("/m/07yv9");
    reveal_strlit("/m/098wr");
    reveal_strlit("/m/09s1f");
    reveal_strlit("/m/0kt51");
    reveal_strlit("/m/01h6rj");
    reveal_strlit("/m/05qt0");
    reveal_strlit("/m/06bvp");
    reveal_strlit("/m/01k8wb");
    assert("/m/04rlf"@ =~= seq!['/', 'm', '/', '0', '4', 'r', 'l', 'f']);
    assert("/m/02mscn"@ =~= seq!['/', 'm', '/', '0', '2', 'm', 's', 'c', 'n']);
    assert("/m/0ggq0m"@ =~= seq!['/', 'm', '/', '0', 'g', 'g', 'q', '0', 'm']);
    assert("/m/01lyv"@ =~= seq!['/', 'm', '/', '0', '1', 'l', 'y', 'v']);
    assert("/m/02lkt"@ =~= seq!['/', 'm', '/', '0', '2', 'l', 'k', 't']);
    assert("/m/0glt670"@ =~= seq!['/', 'm', '/', '0', 'g', 'l', 't', '6', '7', '0']);
    assert("/m/05rwpb"@ =~= seq!['/', 'm', '/', '0', '5', 'r', 'w', 'p', 'b']);
    assert("/m/03_d0"@ =~= seq!['/', 'm', '/', '0', '3', '_', 'd', '0']);
    assert("/m/028sqc"@ =~= seq!['/', 'm', '/', '0', '2', '8', 's', 'q', 'c']);
    assert("/m/0g293"@ =~= seq!['/', 'm', '/', '0', 'g', '2', '9', '3']);
    assert("/m/064t9"@ =~= seq!['/', 'm', '/', '0', '6', '4', 't', '9']);
    assert("/m/06cqb"@ =~= seq!['/', 'm', '/', '0', '6', 'c', 'q', 'b']);
    assert("/m/06j6l"@ =~= seq!['/', 'm', '/', '0', '6', 'j', '6', 'l']);
    assert("/m/06by7"@ =~= seq!['/', 'm', '/', '0', '6', 'b', 'y', '7']);
    assert("/m/0gywn"@ =~= seq!['/', 'm', '/', '0', 'g', 'y', 'w', 'n']);
    assert("/m/0bzvm2"@ =~= seq!['/', 'm', '/', '0', 'b', 'z', 'v', 'm', '2']);
    assert("/m/025zzc"@ =~= seq!['/', 'm', '/', '0', '2', '5', 'z', 'z', 'c']);
    assert("/m/02ntfj"@ =~= seq!['/', 'm', '/', '0', '2', 'n', 't', 'f', 'j']);
    assert("/m/0b1vjn"@ =~= seq!['/', 'm', '/', '0', 'b', '1', 'v', 'j', 'n']);
    assert("/m/02hygl"@ =~= seq!['/', 'm', '/', '0', '2', 'h', 'y', 'g', 'l']);
    assert("/m/04q1x3q"@ =~= seq!['/', 'm', '/', '0', '4', 'q', '1', 'x', '3', 'q']);
    assert("/m/01sjng"@ =~= seq!['/', 'm', '/', '0', '1', 's', 'j', 'n', 'g']);
    assert("/m/0403l3g"@ =~= seq!['/', 'm', '/', '0', '4', '0', '3', 'l', '3', 'g']);
    assert("/m/021bp2"@ =~= seq!['/', 'm', '/', '0', '2', '1', 'b', 'p', '2']);
    assert("/m/022dc6"@ =~= seq!['/', 'm', '/', '0', '2', '2', 'd', 'c', '6']);
    assert("/m/03hf_rm"@ =~= seq!['/', 'm', '/', '0', '3', 'h', 'f', '_', 'r', 'm']);
    assert("/m/06ntj"@ =~= seq!['/', 'm', '/', '0', '6', 'n', 't', 'j']);
    assert("/m/0jm_"@ =~= seq!['/', 'm', '/', '0', 'j', 'm', '_']);
    assert("/m/018jz"@ =~= seq!['/', 'm', '/', '0', '1', '8', 'j', 'z']);
    assert("/m/018w8"@ =~= seq!['/', 'm', '/', '0', '1', '8', 'w', '8']);
    assert("/m/01cgz"@ =~= seq!['/', 'm', '/', '0', '1', 'c', 'g', 'z']);
    assert("/m/09xp_"@ =~= seq!['/', 'm', '/', '0', '9', 'x', 'p', '_']);
    assert("/m/02vx4"@ =~= seq!['/', 'm', '/', '0', '2', 'v', 'x', '4']);
    assert("/m/037hz"@ =~= seq!['/', 'm', '/', '0', '3', '7', 'h', 'z']);
    assert("/m/03tmr"@ =~= seq!['/', 'm', '/', '0', '3', 't', 'm', 'r']);
    assert("/m/01h7lh"@ =~= seq!['/', 'm', '/', '0', '1', 'h', '7', 'l', 'h']);
    assert("/m/0410tth"@ =~= seq!['/', 'm', '/', '0', '4', '1', '0', 't', 't', 'h']);
    assert("/m/07bs0"@ =~= seq!['/', 'm', '/', '0', '7', 'b', 's', '0']);
    assert("/m/07_53"@ =~= seq!['/', 'm', '/', '0', '7', '_', '5', '3']);
    assert("/m/02jjt"@ =~= seq!['/', 'm', '/', '0', '2', 'j', 'j', 't']);
    assert("/m/09kqc"@ =~= seq!['/', 'm', '/', '0', '9', 'k', 'q', 'c']);
    assert("/m/02vxn"@ =~= seq!['/', 'm', '/', '0', '2', 'v', 'x', 'n']);
    assert("/m/05qjc"@ =~= seq!['/', 'm', '/', '0', '5', 'q', 'j', 'c']);
    assert("/m/066wd"@ =~= seq!['/', 'm', '/', '0', '6', '6', 'w', 'd']);
    assert("/m/0f2f9"@ =~= seq!['/', 'm', '/', '0', 'f', '2', 'f', '9']);
    assert("/m/019_rr"@ =~= seq!['/', 'm', '/', '0', '1', '9', '_', 'r', 'r']);
    assert("/m/032tl"@ =~= seq!['/', 'm', '/', '0', '3', '2', 't', 'l']);
    assert("/m/027x7n"@ =~= seq!['/', 'm', '/', '0', '2', '7', 'x', '7', 'n']);
    assert("/m/02wbm"@ =~= seq!['/', 'm', '/', '0', '2', 'w', 'b', 'm']);
    assert("/m/03glg"@ =~= seq!['/', 'm', '/', '0', '3', 'g', 'l', 'g']);
    assert("/m/068hy"@ =~= seq!['/', 'm', '/', '0', '6', '8', 'h', 'y']);
    assert("/m/041xxh"@ =~= seq!['/', 'm', '/', '0', '4', '1', 'x', 'x', 'h']);
    assert("/m/07c1v"@ =~= seq!['/', 'm', '/', '0', '7', 'c', '1', 'v']);
    assert("/m/07bxq"@ =~= seq!['/', 'm', '/', '0', '7', 'b', 'x', 'q']);
    assert("/m/07yv9"@ =~= seq!['/', 'm', '/', '0', '7', 'y', 'v', '9']);
    assert("/m/098wr"@ =~= seq!['/', 'm', '/', '0', '9', '8', 'w', 'r']);
    assert("/m/09s1f"@ =~= seq!['/', 'm', '/', '0', '9', 's', '1', 'f']);
    assert("/m/0kt51"@ =~= seq!['/', 'm', '/', '0', 'k', 't', '5', '1']);
    assert("/m/01h6rj"@ =~= seq!['/', 'm', '/', '0', '1', 'h', '6', 'r', 'j']);
    assert("/m/05qt0"@ =~= seq!['/', 'm', '/', '0', '5', 'q', 't', '0']);
    assert("/m/06bvp"@ =~= seq!['/', 'm', '/', '0', '6', 'b', 'v', 'p']);
    assert("/m/01k8wb"@ =~= seq!['/', 'm', '/', '0', '1', 'k', '8', 'w', 'b']);
}

/// How restricted content is filtered.
#[derive(Debug, Clone, Copy, PartialEq, Eq, Structural)]
pub enum SafeSearch {
    Moderate,
    NoRestriction,
    Strict,
}

impl WireLiteral for SafeSearch {
    open spec fn wire(self) -> Seq<char> {
        match self {
            SafeSearch::Moderate => "moderate"@,
            SafeSearch::NoRestriction => "none"@,
            SafeSearch::Strict => "strict"@,
        }
    }

    fn to_string(&self) -> (r: String) {
        let s = match self {
            SafeSearch::Moderate => "moderate",
            SafeSearch::NoRestriction => "none",
            SafeSearch::Strict => "strict",
        };
        s.to_owned()
    }
}

/// Distinct choices are sent as distinct literals, so a literal names one
/// choice only.
pub proof fn lemma_safe_search_wire_injective(a: SafeSearch, b: SafeSearch)
    requires
        a.wire() == b.wire(),
    ensures
        a == b,
{
    reveal_strlit("moderate");
    reveal_strlit("none");
    reveal_strlit("strict");
    assert("moderate"@ =~= seq!['m', 'o', 'd', 'e', 'r', 'a', 't', 'e']);
    assert("none"@ =~= seq!['n', 'o', 'n', 'e']);
    assert("strict"@ =~= seq!['s', 't', 'r', 'i', 'c', 't']);
}

/// The order in which results are returned.
#[derive(Debug, Clone, Copy, PartialEq, Eq, Structural)]
pub enum Order {
    Date,
    Rating,
    Relevance,
    Title,
    VideoCount,
    ViewCount,
}

impl WireLiteral for Order {
    open spec fn wire(self) -> Seq<char> {
        match self {
            Order::Date => "date"@,
            Order::Rating => "rating"@,
            Order::Relevance => "relevance"@,
            Order::Title => "title"@,
            Order::VideoCount => "videoCount"@,
            Order::ViewCount => "viewCount"@,
        }
    }

    fn to_string(&self) -> (r: String) {
        let s = match self {
            Order::Date => "date",
            Order::Rating => "rating",
            Order::Relevance => "relevance",
            Order::Title => "title",
            Order::VideoCount => "videoCount",
            Order::ViewCount => "viewCount",
        };
        s.to_owned()
    }
}

/// Distinct choices are sent as distinct literals, so a literal names one
/// choice only.
pub proof fn lemma_order_wire_injective(a: Order, b: Order)
    requires
        a.wire() == b.wire(),
    ensures
        a == b,
{
    reveal_strlit("date");
    reveal_strlit("rating");
    reveal_strlit("relevance");
    reveal_strlit("title");
    reveal_strlit("videoCount");
    reveal_strlit("viewCount");
    assert("date"@ =~= seq!['d', 'a', 't', 'e']);
    assert("rating"@ =~= seq!['r', 'a', 't', 'i', 'n', 'g']);
    assert("relevance"@ =~= seq!['r', 'e', 'l', 'e', 'v', 'a', 'n', 'c', 'e']);
    assert("title"@ =~= seq!['t', 'i', 't', 'l', 'e']);
    assert("videoCount"@ =~= seq!['v', 'i', 'd', 'e', 'o', 'C', 'o', 'u', 'n', 't']);
    assert("viewCount"@ =~= seq!['v', 'i', 'e', 'w', 'C', 'o', 'u', 'n', 't']);
}

/// The kind of channel a search is restricted to.
#[derive(Debug, Clone, Copy, PartialEq, Eq, Structural)]
pub enum ChannelType {
    Any,
    Show,
}

impl WireLiteral for ChannelType {
    open spec fn wire(self) -> Seq<char> {
        match self {
            ChannelType::Any => "any"@,
            ChannelType::Show => "show"@,
        }
    }

    fn to_string(&self) -> (r: String) {
        let s = match self {
            ChannelType::Any => "any",
            ChannelType::Show => "show",
        };
        s.to_owned()
    }
}

/// Distinct choices are sent as distinct literals, so a literal names one
/// choice only.
pub proof fn lemma_channel_type_wire_injective(a: ChannelType, b: ChannelType)
    requires
        a.wire() == b.wire(),
    ensures
        a == b,
{
    reveal_strlit("any");
    reveal_strlit("show");
    assert("any"@ =~= seq!['a', 'n', 'y']);
    assert("show"@ =~= seq!['s', 'h', 'o', 'w']);
}

/// The broadcast state that results must be in.
#[derive(Debug, Clone, Copy, PartialEq, Eq, Structural)]
pub enum EventType {
    Completed,
    Live,
    Upcoming,
}

impl WireLiteral for EventType {
    open spec fn wire(self) -> Seq<char> {
        match self {
            EventType::Completed => "completed"@,
            EventType::Live => "live"@,
            EventType::Upcoming => "upcoming"@,
        }
    }

    fn to_string(&self) -> (r: String) {
        let s = match self {
            EventType::Completed => "completed",
            EventType::Live => "live",
            EventType::Upcoming => "upcoming",
        };
        s.to_owned()
    }
}

/// Distinct choices are sent as distinct literals, so a literal names one
/// choice only.
pub proof fn lemma_event_type_wire_injective(a: EventType, b: EventType)
    requires
        a.wire() == b.wire(),
    ensures
        a == b,
{
    reveal_strlit("completed");
    reveal_strlit("live");
    reveal_strlit("upcoming");
    assert("completed"@ =~= seq!['c', 'o', 'm', 'p', 'l', 'e', 't', 'e', 'd']);
    assert("live"@ =~= seq!['l', 'i', 'v', 'e']);
    assert("upcoming"@ =~= seq!['u', 'p', 'c', 'o', 'm', 'i', 'n', 'g']);
}

} // verus!
