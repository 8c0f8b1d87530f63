use steam_api::community::{format_community, parse_community};
use steam_api::{AccountType, SteamID, SteamIdError, Universe};

const TYPES: [AccountType; 11] = [
    AccountType::Invalid,
    AccountType::Individual,
    AccountType::Multiseat,
    AccountType::GameServer,
    AccountType::AnonGameServer,
    AccountType::Pending,
    AccountType::ContentServer,
    AccountType::Clan,
    AccountType::Chat,
    AccountType::P2PSuperSeeder,
    AccountType::AnonUser,
];

const UNIVERSES: [Universe; 6] = [
    Universe::Invalid,
    Universe::Public,
    Universe::Beta,
    Universe::Internal,
    Universe::Dev,
    Universe::RC,
];

#[test]
fn community_text_is_read() {
    let id = parse_community("[U:1:22222]").unwrap();
    assert_eq!(id.account_type(), AccountType::Individual);
    assert_eq!(id.universe(), Universe::Public);
    assert_eq!(id.account_number(), 22222);
    assert_eq!(id.instance(), 1);
    assert_eq!(id.to_u64(), 76561197960287950);
}

#[test]
fn community_instance_is_read_where_written() {
    let id = parse_community("[U:1:22222:4]").unwrap();
    assert_eq!(id.instance(), 4);
    assert_eq!(id.to_u64(), 76561210845189838);
    let id = parse_community("[U:1:22222:0]").unwrap();
    assert_eq!(id.instance(), 0);
    let id = parse_community("[g:1:12345:5]").unwrap();
    assert_eq!(id.to_u64(), 103582812904370233);
}

#[test]
fn community_instance_defaults_by_type() {
    assert_eq!(parse_community("[g:1:12345]").unwrap().instance(), 0);
    assert_eq!(parse_community("[g:1:12345]").unwrap().to_u64(), 103582791429533753);
    assert_eq!(parse_community("[G:1:7]").unwrap().instance(), 0);
    assert_eq!(parse_community("[A:1:7]").unwrap().instance(), 0);
    assert_eq!(parse_community("[c:1:7]").unwrap().instance(), 0);
    assert_eq!(parse_community("[U:1:7]").unwrap().instance(), 1);
}

#[test]
fn community_letters_name_types() {
    assert_eq!(parse_community("[U:1:7]").unwrap().account_type(), AccountType::Individual);
    assert_eq!(parse_community("[A:1:7]").unwrap().account_type(), AccountType::AnonGameServer);
    assert_eq!(parse_community("[G:1:7]").unwrap().account_type(), AccountType::GameServer);
    assert_eq!(parse_community("[c:1:7]").unwrap().account_type(), AccountType::Chat);
    assert_eq!(parse_community("[g:1:7]").unwrap().account_type(), AccountType::Clan);
    assert_eq!(parse_community("[G:1:7:1]").unwrap().to_u64(), 85568397215006727);
}

#[test]
fn community_letter_has_to_be_known() {
    assert_eq!(parse_community("[Z:1:100]"), Err(SteamIdError::InvalidAccountType));
    assert_eq!(parse_community("[u:1:100]"), Err(SteamIdError::InvalidAccountType));
    assert_eq!(parse_community("[x:1:100:3]"), Err(SteamIdError::InvalidAccountType));
}

#[test]
fn community_universe_has_to_be_known() {
    assert_eq!(parse_community("[U:9:100]"), Err(SteamIdError::InvalidUniverse));
    assert_eq!(parse_community("[U:6:100]"), Err(SteamIdError::InvalidUniverse));
    assert_eq!(parse_community("[U:10:100]"), Err(SteamIdError::InvalidUniverse));
    assert_eq!(
        parse_community("[U:99999999999999999999999:100]"),
        Err(SteamIdError::InvalidUniverse)
    );
    assert_eq!(parse_community("[U:0:100]").unwrap().universe(), Universe::Invalid);
    assert_eq!(parse_community("[U:5:100]").unwrap().universe(), Universe::RC);
    assert_eq!(parse_community("[U:005:100]").unwrap().universe(), Universe::RC);
}

#[test]
fn community_fields_have_to_fit() {
    assert_eq!(parse_community("[U:1:4294967295]").unwrap().account_number(), u32::MAX);
    assert_eq!(parse_community("[U:1:4294967296]"), Err(SteamIdError::Overflow));
    assert_eq!(parse_community("[U:1:1:1048575]").unwrap().instance(), 0xF_FFFF);
    assert_eq!(parse_community("[U:1:1:1048576]"), Err(SteamIdError::Overflow));
    assert_eq!(
        parse_community("[U:1:340282366920938463463374607431768211456]"),
        Err(SteamIdError::Overflow)
    );
    assert_eq!(
        parse_community("[U:1:1:340282366920938463463374607431768211456]"),
        Err(SteamIdError::Overflow)
    );
}

#[test]
fn community_grammar_is_enforced() {
    for text in [
        "",
        "[",
        "[]",
        "[U]",
        "[U:1]",
        "[U:1:]",
        "[U::1]",
        "[:1:1]",
        "[U:1:1",
        "U:1:1]",
        "U:1:100",
        "[U:1:1]]",
        "[U:1:1] ",
        " [U:1:1]",
        "[U:1:1:]",
        "[U:1:1:2:3]",
        "[U:1:1:2:]",
        "[UU:1:1]",
        "[1:1:1]",
        "[U:a:1]",
        "[U:1:a]",
        "[U:1:1:a]",
        "[U:1:-1]",
        "[U:+1:1]",
        "[U:1: 1]",
        "[U;1;1]",
        "(U:1:1)",
        "[U:1:1}",
        "[U:1:１]",
        "[é:1:1]",
    ] {
        assert_eq!(parse_community(text), Err(SteamIdError::ParseError), "{}", text);
    }
}

#[test]
fn community_errors_come_in_order() {
    assert_eq!(parse_community("[Z:9:x]"), Err(SteamIdError::ParseError));
    assert_eq!(parse_community("[Z:9:4294967296]"), Err(SteamIdError::InvalidAccountType));
    assert_eq!(parse_community("[U:9:4294967296]"), Err(SteamIdError::InvalidUniverse));
    assert_eq!(parse_community("[U:1:4294967296:1048576]"), Err(SteamIdError::Overflow));
}

#[test]
fn community_text_is_written() {
    let id = SteamID::from_raw(76561197960287950).unwrap();
    assert_eq!(format_community(&id), "[U:1:22222]");
    let id = SteamID::from_raw(76561210845189838).unwrap();
    assert_eq!(format_community(&id), "[U:1:22222:4]");
    let id = SteamID::from_parts(22222, 0, AccountType::Individual, Universe::Public).unwrap();
    assert_eq!(format_community(&id), "[U:1:22222:0]");
    let id = SteamID::from_raw(103582791429533753).unwrap();
    assert_eq!(format_community(&id), "[g:1:12345]");
    let id = SteamID::from_raw(103582812904370233).unwrap();
    assert_eq!(format_community(&id), "[g:1:12345:5]");
    let id = SteamID::from_raw(0).unwrap();
    assert_eq!(format_community(&id), "[I:0:0]");
    let id = SteamID::from_raw(409827566090715135).unwrap();
    assert_eq!(format_community(&id), "[a:5:4294967295:1048575]");
    let id = SteamID::from_parts(100, 0, AccountType::P2PSuperSeeder, Universe::Dev).unwrap();
    assert_eq!(id.to_u64(), 328762772798046308);
    assert_eq!(format_community(&id), "[S:4:100]");
}

#[test]
fn community_round_trip_gives_the_identifier_back() {
    for t in TYPES {
        for u in UNIVERSES {
            for a in [0u64, 1, 22222, 0xFFFF_FFFF] {
                for i in [0u64, 1, 2, 0xF_FFFF] {
                    let id = SteamID::from_parts(a, i, t, u).unwrap();
                    let back = parse_community(&format_community(&id)).unwrap();
                    assert_eq!(back, id);
                    assert_eq!(back.account_number(), id.account_number());
                    assert_eq!(back.instance(), id.instance());
                    assert_eq!(back.account_type(), id.account_type());
                    assert_eq!(back.universe(), id.universe());
                }
            }
        }
    }
}
