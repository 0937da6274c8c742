use search_clients::youtube_options::{
    ChannelType, EventType, Order, SafeSearch, Topic, Type, VideoCaption, VideoDefinition,
    VideoDimension, VideoDuration, VideoEmbeddable, VideoLicense, VideoPaidProductPlacement,
    VideoSyndicated, VideoType, WireLiteral,
};

#[test]
fn video_type_literals() {
    let cases = [
        (VideoType::Any, "any"),
        (VideoType::Episode, "episode"),
        (VideoType::Movie, "movie"),
    ];
    for (choice, literal) in cases.iter() {
        assert_eq!(choice.to_string(), *literal);
    }
    for (a, la) in cases.iter() {
        for (b, lb) in cases.iter() {
            assert_eq!(a == b, la == lb);
        }
    }
}

#[test]
fn video_syndicated_literals() {
    let cases = [
        (VideoSyndicated::Any, "any"),
        (VideoSyndicated::True, "true"),
    ];
    for (choice, literal) in cases.iter() {
        assert_eq!(choice.to_string(), *literal);
    }
    for (a, la) in cases.iter() {
        for (b, lb) in cases.iter() {
            assert_eq!(a == b, la == lb);
        }
    }
}

#[test]
fn video_paid_product_placement_literals() {
    let cases = [
        (VideoPaidProductPlacement::Any, "any"),
        (VideoPaidProductPlacement::True, "true"),
    ];
    for (choice, literal) in cases.iter() {
        assert_eq!(choice.to_string(), *literal);
    }
    for (a, la) in cases.iter() {
        for (b, lb) in cases.iter() {
            assert_eq!(a == b, la == lb);
        }
    }
}

#[test]
fn video_license_literals() {
    let cases = [
        (VideoLicense::Any, "any"),
        (VideoLicense::CreativeCommon, "creativeCommon"),
        (VideoLicense::Youtube, "youtube"),
    ];
    for (choice, literal) in cases.iter() {
        assert_eq!(choice.to_string(), *literal);
    }
    for (a, la) in cases.iter() {
        for (b, lb) in cases.iter() {
            assert_eq!(a == b, la == lb);
        }
    }
}

#[test]
fn video_embeddable_literals() {
    let cases = [
        (VideoEmbeddable::Any, "any"),
        (VideoEmbeddable::True, "true"),
    ];
    for (choice, literal) in cases.iter() {
        assert_eq!(choice.to_string(), *literal);
    }
    for (a, la) in cases.iter() {
        for (b, lb) in cases.iter() {
            assert_eq!(a == b, la == lb);
        }
    }
}

#[test]
fn video_definition_literals() {
    let cases = [
        (VideoDefinition::Any, "any"),
        (VideoDefinition::High, "high"),
        (VideoDefinition::Standard, "standard"),
    ];
    for (choice, literal) in cases.iter() {
        assert_eq!(choice.to_string(), *literal);
    }
    for (a, la) in cases.iter() {
        for (b, lb) in cases.iter() {
            assert_eq!(a == b, la == lb);
        }
    }
}

#[test]
fn video_caption_literals() {
    let cases = [
        (VideoCaption::Any, "any"),
        (VideoCaption::ClosedCaption, "closedCaption"),
        (VideoCaption::NoCaption, "none"),
    ];
    for (choice, literal) in cases.iter() {
        assert_eq!(choice.to_string(), *literal);
    }
    for (a, la) in cases.iter() {
        for (b, lb) in cases.iter() {
            assert_eq!(a == b, la == lb);
        }
    }
}

#[test]
fn type_literals() {
    let cases = [
        (Type::Channel, "channel"),
        (Type::Playlist, "playlist"),
        (Type::Video, "video"),
    ];
    for (choice, literal) in cases.iter() {
        assert_eq!(choice.to_string(), *literal);
    }
    for (a, la) in cases.iter() {
        for (b, lb) in cases.iter() {
            assert_eq!(a == b, la == lb);
        }
    }
}

#[test]
fn video_duration_literals() {
    let cases = [
        (VideoDuration::Any, "any"),
        (VideoDuration::Long, "long"),
        (VideoDuration::Medium, "medium"),
        (VideoDuration::Short, "short"),
    ];
    for (choice, literal) in cases.iter() {
        assert_eq!(choice.to_string(), *literal);
    }
    for (a, la) in cases.iter() {
        for (b, lb) in cases.iter() {
            assert_eq!(a == b, la == lb);
        }
    }
}

#[test]
fn video_dimension_literals() {
    let cases = [
        (VideoDimension::Any, "any"),
        (VideoDimension::_2d, "2d"),
        (VideoDimension::_3d, "3d"),
    ];
    for (choice, literal) in cases.iter() {
        assert_eq!(choice.to_string(), *literal);
    }
    for (a, la) in cases.iter() {
        for (b, lb) in cases.iter() {
            assert_eq!(a == b, la == lb);
        }
    }
}

#[test]
fn topic_literals() {
    let cases = [
        (Topic::Music, "/m/04rlf"),
        (Topic::ChristianMusic, "/m/02mscn"),
        (Topic::ClassicalMusic, "/m/0ggq0m"),
        (Topic::Country, "/m/01lyv"),
        (Topic::ElectronicMusic, "/m/02lkt"),
        (Topic::HipHopMusic, "/m/0glt670"),
        (Topic::IndependentMusic, "/m/05rwpb"),
        (Topic::Jazz, "/m/03_d0"),
        (Topic::MusicOfAsia, "/m/028sqc"),
        (Topic::MusicOfLatinAmerica, "/m/0g293"),
        (Topic::PopMusic, "/m/064t9"),
        (Topic::Reggae, "/m/06cqb"),
        (Topic::RhythmAndBlues, "/m/06j6l"),
        (Topic::RockMusic, "/m/06by7"),
        (Topic::SoulMusic, "/m/0gywn"),
        (Topic::Gaming, "/m/0bzvm2"),
        (Topic::ActionGame, "/m/025zzc"),
        (Topic::ActionAdventureGame, "/m/02ntfj"),
        (Topic::CasualGame, "/m/0b1vjn"),
        (Topic::MusicVideoGame, "/m/02hygl"),
        (Topic::PuzzleVideoGame, "/m/04q1x3q"),
        (Topic::RacingVideoGame, "/m/01sjng"),
        (Topic::RolePlayingVideoGame, "/m/0403l3g"),
        (Topic::SimulationVideoGame, "/m/021bp2"),
        (Topic::SportsVideoGame, "/m/022dc6"),
        (Topic::StrategyVideoGame, "/m/03hf_rm"),
        (Topic::Sports, "/m/06ntj"),
        (Topic::AmericanFootball, "/m/0jm_"),
        (Topic::Baseball, "/m/018jz"),
        (Topic::Basketball, "/m/018w8"),
        (Topic::Boxing, "/m/01cgz"),
        (Topic::Cricket, "/m/09xp_"),
        (Topic::Football, "/m/02vx4"),
        (Topic::Golf, "/m/037hz"),
        (Topic::IceHockey, "/m/03tmr"),
        (Topic::MixedMartialArts, "/m/01h7lh"),
        (Topic::Motorsport, "/m/0410tth"),
        (Topic::Tennis, "/m/07bs0"),
        (Topic::Volleyball, "/m/07_53"),
        (Topic::Entertainment, "/m/02jjt"),
        (Topic::Humor, "/m/09kqc"),
        (Topic::Movies, "/m/02vxn"),
        (Topic::PerformingArts, "/m/05qjc"),
        (Topic::PreofessionalWrestling, "/m/066wd"),
        (Topic::TvShows, "/m/0f2f9"),
        (Topic::Lifestyle, "/m/019_rr"),
        (Topic::Fashion, "/m/032tl"),
        (Topic::Fitness, "/m/027x7n"),
        (Topic::Food, "/m/02wbm"),
        (Topic::Hobby, "/m/03glg"),
        (Topic::Pets, "/m/068hy"),
        (Topic::PhysicalAttractiveness, "/m/041xxh"),
        (Topic::Technology, "/m/07c1v"),
        (Topic::Tourism, "/m/07bxq"),
        (Topic::Vehicles, "/m/07yv9"),
        (Topic::Society, "/m/098wr"),
        (Topic::Business, "/m/09s1f"),
        (Topic::Health, "/m/0kt51"),
        (Topic::Military, "/m/01h6rj"),
        (Topic::Politics, "/m/05qt0"),
        (Topic::Religion, "/m/06bvp"),
        (Topic::Knowledge, "/m/01k8wb"),
    ];
    for (choice, literal) in cases.iter() {
        assert_eq!(choice.to_string(), *literal);
    }
    for (a, la) in cases.iter() {
        for (b, lb) in cases.iter() {
            assert_eq!(a == b, la == lb);
        }
    }
}

#[test]
fn safe_search_literals() {
    let cases = [
        (SafeSearch::Moderate, "moderate"),
        (SafeSearch::NoRestriction, "none"),
        (SafeSearch::Strict, "strict"),
    ];
    for (choice, literal) in cases.iter() {
        assert_eq!(choice.to_string(), *literal);
    }
    for (a, la) in cases.iter() {
        for (b, lb) in cases.iter() {
            assert_eq!(a == b, la == lb);
        }
    }
}

#[test]
fn order_literals() {
    let cases = [
        (Order::Date, "date"),
        (Order::Rating, "rating"),
        (Order::Relevance, "relevance"),
        (Order::Title, "title"),
        (Order::VideoCount, "videoCount"),
        (Order::ViewCount, "viewCount"),
    ];
    for (choice, literal) in cases.iter() {
        assert_eq!(choice.to_string(), *literal);
    }
    for (a, la) in cases.iter() {
        for (b, lb) in cases.iter() {
            assert_eq!(a == b, la == lb);
        }
    }
}

#[test]
fn channel_type_literals() {
    let cases = [
        (ChannelType::Any, "any"),
        (ChannelType::Show, "show"),
    ];
    for (choice, literal) in cases.iter() {
        assert_eq!(choice.to_string(), *literal);
    }
    for (a, la) in cases.iter() {
        for (b, lb) in cases.iter() {
            assert_eq!(a == b, la == lb);
        }
    }
}

#[test]
fn event_type_literals() {
    let cases = [
        (EventType::Completed, "completed"),
        (EventType::Live, "live"),
        (EventType::Upcoming, "upcoming"),
    ];
    for (choice, literal) in cases.iter() {
        assert_eq!(choice.to_string(), *literal);
    }
    for (a, la) in cases.iter() {
        for (b, lb) in cases.iter() {
            assert_eq!(a == b, la == lb);
        }
    }
}

