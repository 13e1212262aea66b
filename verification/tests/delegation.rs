use solana_token_engine::account::{Account, Refund};
use solana_token_engine::error::{ErrorCode, ErrorKind};
use solana_token_engine::pda::{find_rbf_auth_address, find_vault_auth_address};
use solana_token_engine::pubkey::Pubkey;
use solana_token_engine::rbf::{
    create_rbf_auth, create_rbf_revoke, CreateRbfAuth, CreateRbfRevoke, GlobalConfig, RbfAuth,
};
use solana_token_engine::router::{vault_deploy_auth, vault_deploy_revoke};
use solana_token_engine::vault::{
    create_vault_auth, create_vault_revoke, CreateVaultAuth, CreateVaultRevoke, VaultAuth,
};

fn key(byte: u8) -> Pubkey {
    Pubkey::new_from_array([byte; 32])
}

fn program() -> Pubkey {
    key(200)
}

fn registry() -> GlobalConfig {
    GlobalConfig { admin: key(1), rbf_nonce: 0, bump: 254 }
}

fn grant_to(creator: Pubkey) -> CreateRbfAuth {
    let (address, _) = find_rbf_auth_address(&creator, &program()).unwrap();
    CreateRbfAuth {
        program_id: program(),
        global_config: registry(),
        admin: key(1),
        rbf_auth: Account { key: address, lamports: 890_880, data: None },
        creator,
    }
}

fn revoke_of(grant: CreateRbfAuth) -> CreateRbfRevoke {
    CreateRbfRevoke {
        program_id: grant.program_id,
        global_config: grant.global_config,
        admin: grant.admin,
        rbf_auth: grant.rbf_auth,
        creator: grant.creator,
    }
}

fn vault_grant_to(creator: Pubkey) -> CreateVaultAuth {
    let (address, _) = find_vault_auth_address(&creator, &program()).unwrap();
    CreateVaultAuth {
        program_id: program(),
        global_config: registry(),
        admin: key(1),
        vault_auth: Account { key: address, lamports: 890_880, data: None },
        creator,
    }
}

#[test]
fn grant_stores_the_record() {
    let mut ctx = grant_to(key(2));
    assert_eq!(create_rbf_auth(&mut ctx), Ok(()));
    assert_eq!(ctx.rbf_auth.data, Some(RbfAuth { creator: key(2), bump: 254 }));
    assert_eq!(ctx.rbf_auth.lamports, 890_880);
    assert_eq!(ctx.global_config, registry());
}

#[test]
fn grant_asks_for_the_administrator() {
    let mut ctx = grant_to(key(2));
    ctx.admin = key(2);
    let before = ctx;
    let answer = create_rbf_auth(&mut ctx);
    assert_eq!(answer, Err(ErrorCode::Unauthorized));
    assert_eq!(answer.unwrap_err().kind(), ErrorKind::Authorization);
    assert_eq!(ctx, before);
}

#[test]
fn grant_while_a_record_exists_fails() {
    let mut ctx = grant_to(key(2));
    assert_eq!(create_rbf_auth(&mut ctx), Ok(()));
    let before = ctx;
    let answer = create_rbf_auth(&mut ctx);
    assert_eq!(answer, Err(ErrorCode::AccountAlreadyInUse));
    assert_eq!(answer.unwrap_err().kind(), ErrorKind::State);
    assert_eq!(ctx, before);
}

#[test]
fn grant_rejects_another_address() {
    let mut ctx = grant_to(key(2));
    ctx.creator = key(3);
    let before = ctx;
    let answer = create_rbf_auth(&mut ctx);
    assert_eq!(answer, Err(ErrorCode::ConstraintSeeds));
    assert_eq!(answer.unwrap_err().kind(), ErrorKind::Constraint);
    assert_eq!(ctx, before);
}

#[test]
fn grant_given_a_derived_address() {
    let handler = solana_token_engine::rbf::instructions::create_rbf_auth::create_rbf_auth;
    let mut ctx = CreateRbfAuth {
        program_id: program(),
        global_config: registry(),
        admin: key(1),
        rbf_auth: Account { key: key(20), lamports: 3, data: None },
        creator: key(2),
    };
    assert_eq!(handler(&mut ctx, None), Err(ErrorCode::ConstraintSeeds));
    assert_eq!(handler(&mut ctx, Some((key(21), 200))), Err(ErrorCode::ConstraintSeeds));
    assert_eq!(handler(&mut ctx, Some((key(20), 200))), Ok(()));
    assert_eq!(ctx.rbf_auth, Account { key: key(20), lamports: 3, data: Some(RbfAuth { creator: key(2), bump: 200 }) });
    assert_eq!(handler(&mut ctx, Some((key(20), 200))), Err(ErrorCode::AccountAlreadyInUse));
    ctx.admin = key(5);
    assert_eq!(handler(&mut ctx, None), Err(ErrorCode::Unauthorized));
}

#[test]
fn revoke_deletes_the_record_and_refunds_the_administrator() {
    let mut grant = grant_to(key(2));
    assert_eq!(create_rbf_auth(&mut grant), Ok(()));
    let mut revoke = revoke_of(grant);
    assert_eq!(create_rbf_revoke(&mut revoke), Ok(Refund { recipient: key(1), lamports: 890_880 }));
    assert_eq!(revoke.rbf_auth, Account { key: grant.rbf_auth.key, lamports: 0, data: None });
    assert_eq!(revoke.global_config, registry());
}

#[test]
fn grant_after_revoke_restores_the_record() {
    let mut grant = grant_to(key(2));
    assert_eq!(create_rbf_auth(&mut grant), Ok(()));
    let mut revoke = revoke_of(grant);
    assert!(create_rbf_revoke(&mut revoke).is_ok());
    let mut again = grant_to(key(2));
    again.rbf_auth = revoke.rbf_auth;
    assert_eq!(create_rbf_auth(&mut again), Ok(()));
    assert_eq!(again.rbf_auth.data, Some(RbfAuth { creator: key(2), bump: 254 }));
}

#[test]
fn revoke_twice_fails() {
    let mut grant = grant_to(key(2));
    assert_eq!(create_rbf_auth(&mut grant), Ok(()));
    let mut revoke = revoke_of(grant);
    assert!(create_rbf_revoke(&mut revoke).is_ok());
    let before = revoke;
    assert_eq!(create_rbf_revoke(&mut revoke), Err(ErrorCode::AccountNotInitialized));
    assert_eq!(revoke, before);
}

#[test]
fn revoke_asks_for_the_administrator() {
    let mut grant = grant_to(key(2));
    assert_eq!(create_rbf_auth(&mut grant), Ok(()));
    let mut revoke = revoke_of(grant);
    revoke.admin = key(2);
    let before = revoke;
    assert_eq!(create_rbf_revoke(&mut revoke), Err(ErrorCode::Unauthorized));
    assert_eq!(revoke, before);
}

#[test]
fn revoke_rejects_a_record_that_names_another_creator() {
    let (address, bump) = find_rbf_auth_address(&key(3), &program()).unwrap();
    let mut revoke = CreateRbfRevoke {
        program_id: program(),
        global_config: registry(),
        admin: key(1),
        rbf_auth: Account { key: address, lamports: 7, data: Some(RbfAuth { creator: key(2), bump }) },
        creator: key(3),
    };
    let before = revoke;
    let answer = create_rbf_revoke(&mut revoke);
    assert_eq!(answer, Err(ErrorCode::InvalidAuthAccount));
    assert_eq!(answer.unwrap_err().kind(), ErrorKind::Authorization);
    assert_eq!(revoke, before);
}

#[test]
fn revoke_rejects_another_address_or_bump() {
    let mut grant = grant_to(key(2));
    assert_eq!(create_rbf_auth(&mut grant), Ok(()));
    let mut revoke = revoke_of(grant);
    revoke.rbf_auth.key = key(3);
    let before = revoke;
    let answer = create_rbf_revoke(&mut revoke);
    assert_eq!(answer, Err(ErrorCode::ConstraintSeeds));
    assert_eq!(answer.unwrap_err().kind(), ErrorKind::Constraint);
    assert_eq!(revoke, before);
    let mut revoke = revoke_of(grant);
    revoke.rbf_auth.data = Some(RbfAuth { creator: key(2), bump: 253 });
    assert_eq!(create_rbf_revoke(&mut revoke), Err(ErrorCode::ConstraintSeeds));
}

#[test]
fn revoke_naming_another_creator_than_the_record_is_unauthorized() {
    let mut grant = grant_to(key(2));
    assert_eq!(create_rbf_auth(&mut grant), Ok(()));
    let mut revoke = revoke_of(grant);
    revoke.creator = key(3);
    let before = revoke;
    let answer = create_rbf_revoke(&mut revoke);
    assert_eq!(answer, Err(ErrorCode::InvalidAuthAccount));
    assert_eq!(answer.unwrap_err().kind(), ErrorKind::Authorization);
    assert_eq!(revoke, before);
    assert_eq!(revoke.rbf_auth.data, Some(RbfAuth { creator: key(2), bump: 254 }));
    assert_eq!(revoke.rbf_auth.lamports, 890_880);

    let mut revoke = revoke_of(grant);
    revoke.creator = key(3);
    revoke.rbf_auth.key = key(77);
    assert_eq!(create_rbf_revoke(&mut revoke), Err(ErrorCode::InvalidAuthAccount));
}

#[test]
fn vault_revoke_naming_another_creator_than_the_record_is_unauthorized() {
    let mut grant = vault_grant_to(key(2));
    assert_eq!(create_vault_auth(&mut grant), Ok(()));
    let mut revoke = CreateVaultRevoke {
        program_id: program(),
        global_config: registry(),
        admin: key(1),
        vault_auth: grant.vault_auth,
        creator: key(3),
    };
    let before = revoke;
    let answer = create_vault_revoke(&mut revoke);
    assert_eq!(answer, Err(ErrorCode::InvalidAuthAccount));
    assert_eq!(answer.unwrap_err().kind(), ErrorKind::Authorization);
    assert_eq!(revoke, before);
    revoke.creator = key(2);
    revoke.vault_auth.key = key(77);
    assert_eq!(create_vault_revoke(&mut revoke), Err(ErrorCode::ConstraintSeeds));
}

#[test]
fn revoke_given_a_derived_address() {
    let handler = solana_token_engine::rbf::instructions::create_rbf_revoke::revoke_rbf_auth;
    let mut ctx = CreateRbfRevoke {
        program_id: program(),
        global_config: registry(),
        admin: key(1),
        rbf_auth: Account { key: key(20), lamports: 11, data: Some(RbfAuth { creator: key(2), bump: 200 }) },
        creator: key(2),
    };
    assert_eq!(handler(&mut ctx, None), Err(ErrorCode::ConstraintSeeds));
    assert_eq!(handler(&mut ctx, Some((key(20), 199))), Err(ErrorCode::ConstraintSeeds));
    ctx.creator = key(3);
    assert_eq!(handler(&mut ctx, None), Err(ErrorCode::InvalidAuthAccount));
    assert_eq!(handler(&mut ctx, Some((key(20), 200))), Err(ErrorCode::InvalidAuthAccount));
    ctx.creator = key(2);
    assert_eq!(handler(&mut ctx, Some((key(20), 200))), Ok(Refund { recipient: key(1), lamports: 11 }));
    assert_eq!(ctx.rbf_auth, Account { key: key(20), lamports: 0, data: None });
}

#[test]
fn vault_delegation_mirrors_fund_delegation() {
    let mut grant = vault_grant_to(key(2));
    assert_eq!(create_vault_auth(&mut grant), Ok(()));
    assert_eq!(grant.vault_auth.data, Some(VaultAuth { creator: key(2), bump: 255 }));
    assert_eq!(create_vault_auth(&mut grant), Err(ErrorCode::AccountAlreadyInUse));

    let mut revoke = CreateVaultRevoke {
        program_id: program(),
        global_config: registry(),
        admin: key(1),
        vault_auth: grant.vault_auth,
        creator: key(2),
    };
    assert_eq!(create_vault_revoke(&mut revoke), Ok(Refund { recipient: key(1), lamports: 890_880 }));
    assert_eq!(revoke.vault_auth.data, None);
    assert_eq!(revoke.vault_auth.lamports, 0);
    assert_eq!(create_vault_revoke(&mut revoke), Err(ErrorCode::AccountNotInitialized));

    let mut again = vault_grant_to(key(2));
    again.vault_auth = revoke.vault_auth;
    assert_eq!(create_vault_auth(&mut again), Ok(()));
}

#[test]
fn vault_delegation_rejections() {
    let mut grant = vault_grant_to(key(2));
    grant.admin = key(9);
    assert_eq!(create_vault_auth(&mut grant), Err(ErrorCode::Unauthorized));
    let mut grant = vault_grant_to(key(2));
    grant.vault_auth.key = key(9);
    assert_eq!(create_vault_auth(&mut grant), Err(ErrorCode::ConstraintSeeds));

    let (address, bump) = find_vault_auth_address(&key(3), &program()).unwrap();
    let mut revoke = CreateVaultRevoke {
        program_id: program(),
        global_config: registry(),
        admin: key(1),
        vault_auth: Account { key: address, lamports: 7, data: Some(VaultAuth { creator: key(2), bump }) },
        creator: key(3),
    };
    assert_eq!(create_vault_revoke(&mut revoke), Err(ErrorCode::InvalidAuthAccount));
    revoke.admin = key(4);
    assert_eq!(create_vault_revoke(&mut revoke), Err(ErrorCode::Unauthorized));
    revoke.admin = key(1);
    revoke.vault_auth.data = Some(VaultAuth { creator: key(3), bump: bump - 1 });
    assert_eq!(create_vault_revoke(&mut revoke), Err(ErrorCode::ConstraintSeeds));
}

#[test]
fn vault_delegation_given_a_derived_address() {
    let grant = solana_token_engine::vault::instructions::create_vault_auth::create_vault_auth;
    let revoke = solana_token_engine::vault::instructions::create_vault_revoke::create_vault_revoke;
    let mut ctx = CreateVaultAuth {
        program_id: program(),
        global_config: registry(),
        admin: key(1),
        vault_auth: Account { key: key(20), lamports: 3, data: None },
        creator: key(2),
    };
    assert_eq!(grant(&mut ctx, Some((key(21), 200))), Err(ErrorCode::ConstraintSeeds));
    assert_eq!(grant(&mut ctx, Some((key(20), 200))), Ok(()));
    assert_eq!(ctx.vault_auth.data, Some(VaultAuth { creator: key(2), bump: 200 }));
    let mut ctx = CreateVaultRevoke {
        program_id: program(),
        global_config: registry(),
        admin: key(1),
        vault_auth: ctx.vault_auth,
        creator: key(2),
    };
    assert_eq!(revoke(&mut ctx, Some((key(20), 201))), Err(ErrorCode::ConstraintSeeds));
    assert_eq!(revoke(&mut ctx, Some((key(20), 200))), Ok(Refund { recipient: key(1), lamports: 3 }));
}

#[test]
fn router_forwards_vault_delegation() {
    let mut grant = vault_grant_to(key(2));
    assert_eq!(vault_deploy_auth(&mut grant), Ok(()));
    assert_eq!(grant.vault_auth.data, Some(VaultAuth { creator: key(2), bump: 255 }));
    let mut revoke = CreateVaultRevoke {
        program_id: program(),
        global_config: registry(),
        admin: key(1),
        vault_auth: grant.vault_auth,
        creator: key(2),
    };
    assert_eq!(vault_deploy_revoke(&mut revoke), Ok(Refund { recipient: key(1), lamports: 890_880 }));
    assert_eq!(revoke.vault_auth.data, None);
}

#[test]
fn record_sizes_of_delegation() {
    assert_eq!(VaultAuth::ACCOUNT_SIZE, 33);
    assert_eq!(RbfAuth::ACCOUNT_SIZE, 33);
}
