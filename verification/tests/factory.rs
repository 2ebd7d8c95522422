use sonic_contracts::pubkey::Pubkey;
use sonic_contracts::system_program::Transfer;
use sonic_contracts::token::MintTo;
use sonic_contracts::token_factory::{
    create_token, create_token_at, initialize, set_fee_receiver, set_mint_fee, ContentHashAccount,
    CreateToken, FactoryState, Initialize, PaymentAccount, TokenCreatedEvent, TokenFactoryError,
    TokenMetadata, UpdateFactory,
};

fn key(n: u8) -> Pubkey {
    Pubkey::new_from_array([n; 32])
}

fn factory(counter: u64, fee: u64) -> FactoryState {
    FactoryState { authority: key(9), token_counter: counter, mint_fee: fee, fee_receiver: key(8) }
}

fn creation(counter: u64, fee: u64, paid: u64) -> CreateToken {
    CreateToken {
        factory_state: factory(counter, fee),
        token_metadata: TokenMetadata {
            name: String::new(),
            symbol: String::new(),
            content_type: String::new(),
            content_hash: String::new(),
            creator: key(0),
            creation_time: 0,
        },
        token_metadata_key: key(40),
        content_hash_account: ContentHashAccount { token_id: 0, token_metadata: key(0) },
        content_hash_account_key: key(41),
        mint: key(42),
        token_account: key(43),
        payer: key(1),
        fee_receiver: key(8),
        payment: PaymentAccount { key: key(44), lamports: paid },
        program_id: key(50),
    }
}

fn create_at(
    ctx: &mut CreateToken,
    derived: Pubkey,
    supply: u64,
    decimals: u8,
) -> Result<(Transfer, MintTo, TokenCreatedEvent), TokenFactoryError> {
    create_token_at(
        ctx,
        derived,
        String::from("Song"),
        String::from("SNG"),
        supply,
        String::from("audio"),
        String::from("abc123"),
        decimals,
        1_700_000_000,
    )
}

fn create(
    ctx: &mut CreateToken,
    content_hash: &str,
) -> Option<Result<(Transfer, MintTo, TokenCreatedEvent), TokenFactoryError>> {
    create_token(
        ctx,
        String::from("Song"),
        String::from("SNG"),
        5,
        String::from("audio"),
        String::from(content_hash),
        9,
        1_700_000_000,
    )
}

fn derived_address(content_hash: &str, program: Pubkey) -> Pubkey {
    let mut seed = b"content_hash".to_vec();
    seed.extend_from_slice(content_hash.as_bytes());
    let program = anchor_lang::solana_program::pubkey::Pubkey::new_from_array(program.to_bytes());
    let (address, _) =
        anchor_lang::solana_program::pubkey::Pubkey::find_program_address(&[&seed], &program);
    Pubkey::new_from_array(address.to_bytes())
}

#[test]
fn factory_initialize_sets_the_settings() {
    let mut ctx = Initialize { factory_state: factory(7, 1), authority: key(3) };
    initialize(&mut ctx, 500, key(4));
    assert_eq!(
        ctx.factory_state,
        FactoryState { authority: key(3), token_counter: 0, mint_fee: 500, fee_receiver: key(4) }
    );
}

#[test]
fn set_mint_fee_is_for_the_authority_only() {
    let mut ctx = UpdateFactory { factory_state: factory(7, 1), authority: key(3) };
    let before = ctx.clone();
    assert_eq!(set_mint_fee(&mut ctx, 99), Err(TokenFactoryError::Unauthorized));
    assert_eq!(ctx, before);

    ctx.authority = key(9);
    assert_eq!(set_mint_fee(&mut ctx, 99), Ok(()));
    assert_eq!(ctx.factory_state, factory(7, 99));
}

#[test]
fn set_fee_receiver_is_for_the_authority_only() {
    let mut ctx = UpdateFactory { factory_state: factory(7, 1), authority: key(3) };
    let before = ctx.clone();
    assert_eq!(set_fee_receiver(&mut ctx, key(5)), Err(TokenFactoryError::Unauthorized));
    assert_eq!(ctx, before);

    ctx.authority = key(9);
    assert_eq!(set_fee_receiver(&mut ctx, key(5)), Ok(()));
    assert_eq!(
        ctx.factory_state,
        FactoryState { authority: key(9), token_counter: 7, mint_fee: 1, fee_receiver: key(5) }
    );
}

#[test]
fn create_token_at_fills_in_the_records() {
    let mut ctx = creation(6, 100, 150);
    let (transfer, mint_to, event) = create_at(&mut ctx, key(41), 5, 9).unwrap();
    assert_eq!(transfer, Transfer { from: key(1), to: key(8), lamports: 150 });
    assert_eq!(
        mint_to,
        MintTo { mint: key(42), to: key(43), authority: key(1), amount: 5_000_000_000 }
    );
    assert_eq!(
        event,
        TokenCreatedEvent {
            token_id: 7,
            token_address: key(42),
            content_type: String::from("audio"),
            content_hash: String::from("abc123"),
            creator: key(1),
        }
    );
    assert_eq!(ctx.factory_state, factory(7, 100));
    assert_eq!(
        ctx.token_metadata,
        TokenMetadata {
            name: String::from("Song"),
            symbol: String::from("SNG"),
            content_type: String::from("audio"),
            content_hash: String::from("abc123"),
            creator: key(1),
            creation_time: 1_700_000_000,
        }
    );
    assert_eq!(
        ctx.content_hash_account,
        ContentHashAccount { token_id: 7, token_metadata: key(40) }
    );
}

#[test]
fn create_token_at_accepts_a_payment_of_exactly_the_fee() {
    let mut ctx = creation(0, 100, 100);
    assert!(create_at(&mut ctx, key(41), 5, 0).is_ok());
}

#[test]
fn create_token_at_rejects_a_payment_below_the_fee() {
    let mut ctx = creation(0, 100, 99);
    let before = ctx.clone();
    assert_eq!(create_at(&mut ctx, key(77), 5, 9), Err(TokenFactoryError::InsufficientFee));
    assert_eq!(ctx, before);
}

#[test]
fn create_token_at_rejects_a_record_at_another_address() {
    let mut ctx = creation(0, 100, 100);
    let before = ctx.clone();
    assert_eq!(
        create_at(&mut ctx, key(77), 5, 9),
        Err(TokenFactoryError::InvalidContentHashAccount)
    );
    assert_eq!(ctx, before);
}

#[test]
fn create_token_at_scales_the_supply_by_the_decimals() {
    for (supply, decimals, amount) in
        [(5u64, 0u8, 5u64), (0, 19, 0), (1, 19, 10_000_000_000_000_000_000), (18, 18, 18_000_000_000_000_000_000)]
    {
        let mut ctx = creation(0, 0, 0);
        let (_, mint_to, _) = create_at(&mut ctx, key(41), supply, decimals).unwrap();
        assert_eq!(mint_to.amount, amount);
    }
}

#[test]
fn create_token_at_fails_when_the_amount_passes_64_bits() {
    for (supply, decimals) in [(2u64, 19u8), (19, 18), (0, 20), (1, 255), (u64::MAX, 1)] {
        let mut ctx = creation(0, 0, 0);
        let before = ctx.clone();
        assert_eq!(
            create_at(&mut ctx, key(41), supply, decimals),
            Err(TokenFactoryError::Arithmetic)
        );
        assert_eq!(ctx, before);
    }
}

#[test]
fn create_token_at_fails_when_the_counter_is_exhausted() {
    let mut ctx = creation(u64::MAX, 0, 0);
    let before = ctx.clone();
    assert_eq!(create_at(&mut ctx, key(41), 1, 1), Err(TokenFactoryError::Arithmetic));
    assert_eq!(ctx, before);
}

#[test]
fn create_token_derives_the_address_of_the_record() {
    let mut ctx = creation(0, 100, 100);
    ctx.content_hash_account_key = derived_address("abc123", key(50));
    assert_ne!(ctx.content_hash_account_key, key(50));
    let (_, mint_to, event) = create(&mut ctx, "abc123").unwrap().unwrap();
    assert_eq!(mint_to.amount, 5_000_000_000);
    assert_eq!(event.token_id, 1);
    assert_eq!(ctx.token_metadata.content_hash, "abc123");
    assert_eq!(ctx.factory_state.token_counter, 1);
}

#[test]
fn create_token_rejects_the_address_of_another_hash() {
    let mut ctx = creation(0, 100, 100);
    ctx.content_hash_account_key = derived_address("abc124", key(50));
    let before = ctx.clone();
    assert_eq!(
        create(&mut ctx, "abc123"),
        Some(Err(TokenFactoryError::InvalidContentHashAccount))
    );
    assert_eq!(ctx, before);
}

#[test]
fn create_token_rejects_the_address_under_another_program() {
    let mut ctx = creation(0, 100, 100);
    ctx.content_hash_account_key = derived_address("abc123", key(51));
    assert_eq!(
        create(&mut ctx, "abc123"),
        Some(Err(TokenFactoryError::InvalidContentHashAccount))
    );
}

#[test]
fn create_token_rejects_the_program_id_as_the_record() {
    let mut ctx = creation(0, 100, 100);
    ctx.content_hash_account_key = key(50);
    assert_eq!(
        create(&mut ctx, "abc123"),
        Some(Err(TokenFactoryError::InvalidContentHashAccount))
    );
}

#[test]
fn create_token_finds_no_address_for_a_long_hash() {
    let mut ctx = creation(0, 100, 100);
    let before = ctx.clone();
    assert_eq!(create(&mut ctx, "0123456789abcdef01234"), None);
    assert_eq!(ctx, before);

    let longest = "0123456789abcdef0123";
    ctx.content_hash_account_key = derived_address(longest, key(50));
    assert!(create(&mut ctx, longest).unwrap().is_ok());
}

#[test]
fn create_token_checks_the_fee_before_it_derives() {
    let mut ctx = creation(0, 100, 99);
    let before = ctx.clone();
    assert_eq!(
        create(&mut ctx, "0123456789abcdef01234"),
        Some(Err(TokenFactoryError::InsufficientFee))
    );
    assert_eq!(ctx, before);
}

#[test]
fn factory_error_messages() {
    assert_eq!(
        TokenFactoryError::InsufficientFee.message(),
        "Insufficient fee for token creation"
    );
    assert_eq!(
        TokenFactoryError::ContentAlreadyTokenized.message(),
        "Content has already been tokenized"
    );
    assert_eq!(
        TokenFactoryError::InvalidContentHashAccount.message(),
        "Invalid content hash account"
    );
    assert_eq!(TokenFactoryError::Unauthorized.message(), "Unauthorized access");
    assert_eq!(TokenFactoryError::Arithmetic.message(), "Arithmetic overflow");
}
