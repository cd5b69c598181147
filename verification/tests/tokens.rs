use std::time::Instant;

use logto::id_check::{check_step, check_step_with, CheckAction, CheckEvent, CheckState};
use logto::jwks::{is_past_ttl, JwksCache, JwksError};
use logto::meta::OidcDiscovery;
use logto::tokens::{
    check_outcome, exchange_failure_message, exchange_outcome, is_by_issuer, is_for_client,
    is_success_status, read_payload, token_request_form, verify_id_token, IdTokenError,
};

const ISSUER: &str = "https://logto.example.com";

const MODULUS: &str = "\
    qYr3wWwa92lLCQIXp0S7ycM_AhyifjNGsg5pbxqyE4MrSDO5vApAmXBMMOqme9pl0-DKSKy9n8c4mb8-\
    7_jX9ZqEQSEdQzNkkdUzRrwtxDAZgvB937ojjREojDa9DlPhvM_na7kOeBU53qqWSKc1A7_dmPq5sCdT\
    hvgZ53DfpfZ3pbcirCcWijv5JUlsW4RQipUxoXRyyV7kmry8pMw3KLzTzDYTEM56Bpj7kvhJlC1PmO8f\
    Qpd1oXZT_ekO1IgMMcCwhycO-JFhjERcNJhHBhfTtlH0Twv4s68YUK3gBg_rwXcxUDqEhps1AyholokE\
    PVBF0R9RZnMzy6KLIEesQw";

// Signed with the key of MODULUS; they expire in 2100.
const TOKEN: &str = "\
    eyJhbGciOiJSUzI1NiIsInR5cCI6IkpXVCIsImtpZCI6ImtleS0xIn0.eyJzdWIiOiJ1MSIsImVtYWls\
    IjoiYW5uQGV4YW1wbGUuY29tIiwiYXVkIjoiY2xpZW50IiwiZXhwIjo0MTAyNDQ0ODAwLCJpc3MiOiJo\
    dHRwczovL2xvZ3RvLmV4YW1wbGUuY29tIn0.VB71QMBoJj5a_QhnVUqsSfoU8WBrxPjK_vzRvyTKOmI6\
    k2HuL4ib16LTkadB421Li0NRtCA-eC88QOZ1TUAVJd6JXZ4WiWKGcAVOs3cB0lptvYs_oHYMa4EJGHix\
    xMVxv179RVdXMIa9ivysiZCtl366MfERg35wT7ladQ7xHDW_UsqLNLW3z2O6f5iUjVxu96IDmjHQiWWX\
    nlfd9zSvx5jC38D1MkS3Usy9gD4qu-YGCjI-Z00_Yt3dOxl1DdH2N7UItUsVZrf_3NE5-h7jWxwdg7_K\
    s9GlTzju8ATQWIVSAlkd9L3yVnRZfxBFw_aJJ9YQLOiiWX3VduH3G5VKpQ";

const TOKEN_WITHOUT_KID: &str = "\
    eyJhbGciOiJSUzI1NiIsInR5cCI6IkpXVCJ9.eyJzdWIiOiJ1MSIsImVtYWlsIjoiYW5uQGV4YW1wbGU\
    uY29tIiwiYXVkIjoiY2xpZW50IiwiZXhwIjo0MTAyNDQ0ODAwLCJpc3MiOiJodHRwczovL2xvZ3RvLmV\
    4YW1wbGUuY29tIn0.ZPe7D5WumBNEuRXkvbV6fyWTUc7dyMxQsuXhLsnEx-GE53pDzOqyPgCXRHsOpT5\
    dhi1o2kY5_gWaDduY83wPBzMpssth19dK44L3ohuZ1ipDSN6-cu-drrhJCEVjmmFpChgKI9LRH-HZoe1\
    -wxpuyor0r13T8t080TW0Si7osZgdFAVkFqRtDz5ha_tTB1QVTHhqhuuWQ1WOSMZW6wBQYWaJvSm27TD\
    1TA1_2R1ShoIwOaGvksFbnr27gNN41MamJ32O-jhugMUumlGHlviOzlzxKt9gTUEx6A3sQSOgDvKcmGe\
    _jSt7D2gs-2iBhsNq2HZqigmiK8uCtMMiHAt6Fg";

// Expired in 2001.
const EXPIRED: &str = "\
    eyJhbGciOiJSUzI1NiIsInR5cCI6IkpXVCIsImtpZCI6ImtleS0xIn0.eyJzdWIiOiJ1MSIsImVtYWls\
    IjoiYW5uQGV4YW1wbGUuY29tIiwiYXVkIjoiY2xpZW50IiwiZXhwIjoxMDAwMDAwMDAwLCJpc3MiOiJo\
    dHRwczovL2xvZ3RvLmV4YW1wbGUuY29tIn0.HfNWqsuKW8opaa3tXPFQZ5Qb15Fdf6G3P-9wuqkONr06\
    Plihc_Ly7KJ7a4hJTRNiWkuYWkZc3Vn9IwDM0Zg-o3feQMEWnTNX30vO9bd3BKYNYcDMCahWrafUCrSD\
    cN-9xy_X5eX4lS3i4rdDT22Hf8BsZLPlcMOTvFv708w8yZmTRDOMpU4SOM9ByayePGOYgEFDEZmsxl1u\
    -Kf0q2DM6qkZAeuzWqsZCa4pp6esb3xlhhpsI8BoZAvN8ka9ayM0EjGRYlTte0-wSPKnmQx4j2VHZYi9\
    5VqLzzCXgu6TrsWcLTWoe3cM_ueL0oFdOfh-vWGJ2FmnWrU7niUnEsq1kg";

// Tokens with other audiences, or without an issuer.
const TOKEN_FOR_SEVERAL: &str = "\
    eyJhbGciOiJSUzI1NiIsInR5cCI6IkpXVCIsImtpZCI6ImtleS0xIn0.eyJzdWIiOiJ1MSIsImVtYWls\
    IjoiYW5uQGV4YW1wbGUuY29tIiwiYXVkIjpbIm90aGVyIiwiY2xpZW50Il0sImV4cCI6NDEwMjQ0NDgw\
    MCwiaXNzIjoiaHR0cHM6Ly9sb2d0by5leGFtcGxlLmNvbSJ9.prX-odq01HlPzuAt4jOCpBbEkS9rOCF\
    xAeIyYWWY_V5r_vDGaqP1v0bdog7CSVj-XAtRi60JWJ7IRvJNsDmr0KvdOtAoxv0fJlb-naSKAui-sXV\
    prTo8WiYNOdGP70aJD8PXX4E2IxjLUxsBPHxHNTZXGdDVPqAdcY5w-GltASiGKGa6VmtqsD3g9NIS_uO\
    JpSF0zRVYwHaL1eRMSQ5uGmQgDW07nuRiu0Q4cOyGPZVwtKNRDA3e7_uD3CQdznElwRwrcD4-tIA3jLJ\
    zN8jU2MqujDcKELWt1eZpRjkfIGo1iQdlMCxqQhUxslgRpZnspZlb0_GF3QEwucEVuk7V7Q";

const TOKEN_FOR_OTHERS: &str = "\
    eyJhbGciOiJSUzI1NiIsInR5cCI6IkpXVCIsImtpZCI6ImtleS0xIn0.eyJzdWIiOiJ1MSIsImVtYWls\
    IjoiYW5uQGV4YW1wbGUuY29tIiwiYXVkIjpbIm90aGVyIl0sImV4cCI6NDEwMjQ0NDgwMCwiaXNzIjoi\
    aHR0cHM6Ly9sb2d0by5leGFtcGxlLmNvbSJ9.NrkH6ibCGJAlW0Re3x295W7R6stsJ5kQpTb7ATMwaq1\
    XfyQlb963OPspBv9J5aBsar4Pn6xCNKkNwHEtnelxQJml-z1DaYyY1mThi7RMsJKKa9c8oBzkPFiuSW3\
    MNNWe7uPndVHKuUcg5GBFPssxFNu12-p55ItYxe07A66RDYLn-XGZ2Y5bI0x18fbfwZLDnGFKZpwUS6L\
    o1eBzK1gd1_V4jemjPIu4ZxYA8FO_LJDsTjXf2nIwpP6k7Nr0n6glyrqQ7kOuFeMriq3cxbIQxNtW8ZL\
    93wxh1OfC1_Tpy-4jw8rdhMPidFG5xd8Psaou60gjBPUdYPNlaRiKNrFTAw";

const TOKEN_FOR_NOBODY: &str = "\
    eyJhbGciOiJSUzI1NiIsInR5cCI6IkpXVCIsImtpZCI6ImtleS0xIn0.eyJzdWIiOiJ1MSIsImVtYWls\
    IjoiYW5uQGV4YW1wbGUuY29tIiwiZXhwIjo0MTAyNDQ0ODAwLCJpc3MiOiJodHRwczovL2xvZ3RvLmV4\
    YW1wbGUuY29tIn0.oXdUAL3Zk6aE2uhnOZ0ycwz6ZY8JDoJ601HMJYv6BW6d9o12lV_fiG9f0B_Ymix2\
    c-GG1-RpQfebXgmr0AxLTtZvzj-9mV4qc5THJi_6p-hgXtcgs8iKfuIIvn0BSbt-hgFexi50d0WkLU7_\
    0ANeTdbr4Uem3Tpw2RSP5iHWcB7A5qTG5YUHmPlKn9Xp-0-cevakhWrXcmxoZLqSPSQN2FoCF0arDM8D\
    XzBRljJVOICTH3o5Yuk97UKlauIeM-hvqBCbpls5yTHhgHe1UM-qZPG6KgNgwokVX0bXQp425fCMnk-5\
    5eZuBFIINLqcmO7BH-XzFTqQRBtVGkj7x4wKxw";

const TOKEN_FOR_A_NUMBER: &str = "\
    eyJhbGciOiJSUzI1NiIsInR5cCI6IkpXVCIsImtpZCI6ImtleS0xIn0.eyJzdWIiOiJ1MSIsImVtYWls\
    IjoiYW5uQGV4YW1wbGUuY29tIiwiYXVkIjo3LCJleHAiOjQxMDI0NDQ4MDAsImlzcyI6Imh0dHBzOi8v\
    bG9ndG8uZXhhbXBsZS5jb20ifQ.i6aSo9GFlvDCB8Ix-JKspThBM5T6sFJ8n-Y2O_kRvzYhaQedOj9lJ\
    n_TpKl8EwoY9-OVd2Ibkl7k-2giLPzgzcaWdRImTS9BbOA4x0rNmoru8DidXT2q5B5-0wlogneK0OHFK\
    DwZqEIkjADTvP6wvaty3HANjYhI7kDsVJiE4nBn-hmgNRQ9WE6bOvUyTyDOmhmJo33aqVp300R1gdTJH\
    yQxelfu3Ey0rzaMcGA-Y1zg9PQ1zh-oAqg29ky4WzWji4oujqSDVY1SPV0fMWL_1zkPM5t5xtrqPHXTF\
    _CT2HefFkmjbVvRe3zfB7Co72jrIHcLTB_S3Aa-cX-EsLfFdg";

const TOKEN_BY_NOBODY: &str = "\
    eyJhbGciOiJSUzI1NiIsInR5cCI6IkpXVCIsImtpZCI6ImtleS0xIn0.eyJzdWIiOiJ1MSIsImVtYWls\
    IjoiYW5uQGV4YW1wbGUuY29tIiwiYXVkIjoiY2xpZW50IiwiZXhwIjo0MTAyNDQ0ODAwfQ.KMZ2vOhBR\
    RVspIL8WB90LggwPBQoBaVNlbn021xoj65jTlup3H2kO9sFC9tPeko2cgkAcm2gwoJWKVkj4uygaEPM1\
    -2fOYv8o-_znswF7kwWwjmtmq-7L_5cLTcguW0Cl232sqUJydeGzL5SXe14zGw9LX7yhgzOsBvBnWU6f\
    RIZcF31DYU-toIQms3FAUx6kiSez2WSkfCdFJuK_-7lpELCxuPfFVRoHVZqfUCqnc7IUJkyB09FhR8ZB\
    8D8BuLYB0pfCeN6vs4-mex4kLimx__DCsTEnDMUIVw-qkdDwkONKPWNoeQPROML_UT7iv04p407yjPRB\
    bbG5Mw6uLP9Tw";

// Tokens with a member that is never read.
const TOKEN_WITH_A_HUGE_NUMBER: &str = "\
    eyJhbGciOiJSUzI1NiIsInR5cCI6IkpXVCIsImtpZCI6ImtleS0xIn0.eyJ4IjoxZTk5OSwiYXVkIjoi\
    Y2xpZW50IiwiZXhwIjo0MTAyNDQ0ODAwLCJpc3MiOiJodHRwczovL2xvZ3RvLmV4YW1wbGUuY29tIn0.\
    VlUVBnM7u_JmiFxwKQoIc2W-ZCJkDlYW3HtqY-4yzqxCOxtkat-AuE-TrjwmDemjI_rEiMC3FHigKV59\
    Yd9D2rFBt1t23iUc4_QICKEMcHybWVyfKt9ukpEyHXb0XoSW9427VmReGZIicIlWRb6olbAZ0uhtJwPK\
    7m3rf8zLYVc6BDrlyOd80WcP7aAJMcFvggZbSuKka2pM1-hqRHlqN4S2gFZ6RoLUCWDwtu-cexd5k7SL\
    FnS1M1jw0DIuRb8ygDWMScYbcZOoBoslI7tjcyreqZbdrxyUhrjmX3DoCeeoKOON7pgKTcXqP_aNMSXT\
    SyOHLMH0gh6eYwLf-tHuQQ";

const TOKEN_WITH_DEEP_NESTING: &str = "\
    eyJhbGciOiJSUzI1NiIsInR5cCI6IkpXVCIsImtpZCI6ImtleS0xIn0.eyJ4IjpbW1tbW1tbW1tbW1tb\
    W1tbW1tbW1tbW1tbW1tbW1tbW1tbW1tbW1tbW1tbW1tbW1tbW1tbW1tbW1tbW1tbW1tbW1tbW1tbW1tb\
    W1tbW1tbW1tbW1tbW1tbW1tbW1tbW1tbW1tbW1tbW1tbW1tbW1tbW1tbW1tbW1tbW1tbW1tbW1tbW1tb\
    W1tbW1tbW1tbW1tbW1tbW1tbW1tbW1tbW1tbW1tbW1tbW1tbW1tbW1tbW1tbW1tbW1tbW1tbW1tbW1tb\
    W1tbW1tbW11dXV1dXV1dXV1dXV1dXV1dXV1dXV1dXV1dXV1dXV1dXV1dXV1dXV1dXV1dXV1dXV1dXV1d\
    XV1dXV1dXV1dXV1dXV1dXV1dXV1dXV1dXV1dXV1dXV1dXV1dXV1dXV1dXV1dXV1dXV1dXV1dXV1dXV1d\
    XV1dXV1dXV1dXV1dXV1dXV1dXV1dXV1dXV1dXV1dXV1dXV1dXV1dXV1dXV1dXV1dXV1dXV1dXV1dXV1d\
    XV1dXV1dXV1dXV1dXV1dXV1dXV1dXV1dXV1dLCJhdWQiOiJjbGllbnQiLCJleHAiOjQxMDI0NDQ4MDAs\
    ImlzcyI6Imh0dHBzOi8vbG9ndG8uZXhhbXBsZS5jb20ifQ.QQoXcmy7ENnHLDXZQBAuh2s5iA9OqIFF_\
    oZgxPxMSiFiAaKhKdSYKgEtZZTI33g5yykOKv9stiffA0B1WbdwLbR_uQHAPNcBq1Fd5MQ1wZ8I-REnu\
    ozn-4S6COFL8DFPevvLOUEwr9vj3JX_KktGzfRSL-778FVkTc04Hswjm969UPa5WmtrdB6xqbjyncwen\
    LULcKpI0BthypQ11XElPJEDgPnW34PLExT_CWaCQktawhyI9UWEOP-nhoLQl7eXullNgT6Gc0caeTQND\
    tZlnqM_5ZR9aHNsImjKa0UKkSjMEk7BImhFQ5LwZetKZnyfAx1TTvmUq_MHkHMTUUBwxQ";

const TOKEN_WITH_A_LONE_SURROGATE: &str = "\
    eyJhbGciOiJSUzI1NiIsInR5cCI6IkpXVCIsImtpZCI6ImtleS0xIn0.eyJ4IjoiXHVkODAwIiwiYXVk\
    IjoiY2xpZW50IiwiZXhwIjo0MTAyNDQ0ODAwLCJpc3MiOiJodHRwczovL2xvZ3RvLmV4YW1wbGUuY29t\
    In0.aL-0l_mfC8fkvXYsVTXqp3BQy5L2St3xh-qEiHjvqXb2yN4rajw61f9RWoD4I7l1bXytA8-wl-UO\
    2cgcz-9UbMD9rcAT9dX4xrzzo2kP-6Jz5MJwe51rVhpDgXM6yL0I5zFhN_YVFbjJ3tCjLmftTQdzR8pf\
    uu27XcqJny8q8mn0x4oZXLedzWtU7uYXPZE6hB5GGqUBsWM9FZBMDddhUUQKBS0ehy4a5fIkALjpte_-\
    PMgoLQQmc7Z4p4zbelzjx0TvDTEbPsCB1ZS6yGydCH2LCoXeqRXq9hVxuxH5db6ApiLpOkp-h66g7Wi4\
    TOOp615poYnI9IhfrQyhsYpEkw";

const TOKEN_WITH_A_BAD_BYTE: &str = "\
    eyJhbGciOiJSUzI1NiIsInR5cCI6IkpXVCIsImtpZCI6ImtleS0xIn0.eyJ4Ijoi_yIsImF1ZCI6ImNs\
    aWVudCIsImV4cCI6NDEwMjQ0NDgwMCwiaXNzIjoiaHR0cHM6Ly9sb2d0by5leGFtcGxlLmNvbSJ9.fp6\
    do4-Y1yOFoM7S__MNnLQhBX4GVq5ijzv2EDBvQRF2sy9eEjoMmqu9meHt-E51gqwi4F5Go-R29blSrel\
    d6ev-AEptj-H-RBayAqa73rHtDJIYmFit749xJudu2w5YmP8SJniW5JPbcLe1pfSefvy2b9v-u8UJtR6\
    TLpSQrEEymMoLS5tBMSYyZQvjHrLi4k22yzetAiMB2FWor8wbDhCQTYxpctBZ0hI6HTYOQrofBzMXxuT\
    tbmw4RglKao3Aj4acTUbnfb4NsQjSaJ-u2Azo3wSh91_hLGnWNk5daRBI_9rN8nkPd0niIny17zX1bEC\
    y2-rnysmZIQb_PoxbRQ";

const CLAIMS: &str = r#"{"sub":"u1","email":"ann@example.com","aud":"client","exp":4102444800,"iss":"https://logto.example.com"}"#;

fn rsa_key(kid: &str) -> String {
    format!(r#"{{"kty":"RSA","use":"sig","alg":"RS256","kid":"{kid}","n":"{MODULUS}","e":"AQAB"}}"#)
}

fn cache_of(keys: &[String]) -> JwksCache {
    let mut cache = JwksCache::new();
    let body = format!(r#"{{"keys":[{}]}}"#, keys.join(","));
    assert!(cache.refresh(body.as_bytes()).is_ok());
    cache
}

#[test]
fn empty_cache_is_stale() {
    let cache = JwksCache::new();
    assert!(cache.is_stale());
    assert!(cache.decoding_key(Some("anything")).is_none());
}

#[test]
fn fetched_keys_are_fresh() {
    let cache = cache_of(&[rsa_key("key-1")]);
    assert!(!cache.is_stale());
    assert!(!cache.is_stale_after(3_600_000_000_000));
    assert!(cache.is_stale_after(3_600_000_000_001));
    assert!(JwksCache::new().is_stale_after(0));
    assert!(!is_past_ttl(3_600_000_000_000));
    assert!(is_past_ttl(3_600_000_000_001));
}

#[test]
fn keys_are_found_by_identifier() {
    let cache = cache_of(&[rsa_key("key-0"), rsa_key("key-1"), r#"{"kid":"bad"}"#.to_string()]);
    assert_eq!(cache.keys.len(), 3);
    assert_eq!(cache.keys[1].kid, Some("key-1".to_string()));
    let document = cache.decoding_key(Some("key-1")).unwrap();
    assert!(document.contains("key-1"));
    assert!(cache.decoding_key(Some("key-2")).is_none());
    // a key that cannot be read is no key
    assert!(cache.decoding_key(Some("bad")).is_none());
    // without an identifier, several keys are no answer
    assert!(cache.decoding_key(None).is_none());
}

#[test]
fn the_only_key_serves_without_an_identifier() {
    let cache = cache_of(&[rsa_key("key-1")]);
    assert!(cache.decoding_key(None).is_some());
    assert!(JwksCache::new().decoding_key(None).is_none());
}

#[test]
fn the_first_key_with_an_identifier_decides() {
    let cache = cache_of(&[r#"{"kid":"key-1"}"#.to_string(), rsa_key("key-1")]);
    assert!(cache.decoding_key(Some("key-1")).is_none());
}

#[test]
fn keys_without_a_text_identifier_have_none() {
    let cache = cache_of(&[r#"{"kid":1}"#.to_string(), "7".to_string()]);
    assert_eq!(cache.keys.len(), 2);
    assert!(cache.keys[0].kid.is_none());
    assert!(cache.keys[1].kid.is_none());
}

#[test]
fn a_key_set_without_an_array_is_empty() {
    for body in [r#"{"keys":{}}"#, "{}", "[]", "null"] {
        let mut cache = cache_of(&[rsa_key("key-1")]);
        assert!(cache.refresh(body.as_bytes()).is_ok());
        assert!(cache.keys.is_empty());
        assert!(!cache.is_stale());
    }
}

#[test]
fn a_body_that_is_no_json_changes_nothing() {
    let mut cache = cache_of(&[rsa_key("key-1")]);
    assert_eq!(cache.refresh(b"<html>"), Err(JwksError::NotJson));
    assert_eq!(cache.keys.len(), 1);
    let mut empty = JwksCache::new();
    assert!(empty.refresh(b"").is_err());
    assert!(empty.is_stale());
}

#[test]
fn the_time_of_a_fetch_is_kept() {
    let mut cache = cache_of(&[rsa_key("key-1")]);
    let now = Instant::now();
    assert!(cache.refresh_at(br#"{"keys":[]}"#, now).is_ok());
    assert_eq!(cache.fetched_at, Some(now));
    assert!(cache.keys.is_empty());
    assert!(cache.refresh_at(b"<html>", Instant::now()).is_err());
    assert_eq!(cache.fetched_at, Some(now));
    let later = Instant::now();
    cache.store_keys_at(Some(vec![rsa_key("key-2")]), later);
    assert_eq!(cache.fetched_at, Some(later));
    assert!(cache.decoding_key(Some("key-2")).is_some());
    cache.store_keys_at(None, later);
    assert!(cache.keys.is_empty());
}

#[test]
fn a_valid_token_gives_its_claims() {
    let cache = cache_of(&[rsa_key("key-0"), rsa_key("key-1")]);
    let r = verify_id_token(Some(&cache), TOKEN, ISSUER, "client");
    assert_eq!(r, Ok(CLAIMS.as_bytes().to_vec()));
    let single = cache_of(&[rsa_key("key-9")]);
    let r = verify_id_token(Some(&single), TOKEN_WITHOUT_KID, ISSUER, "client");
    assert_eq!(r, Ok(CLAIMS.as_bytes().to_vec()));
}

#[test]
fn an_invalid_token_is_refused() {
    let cache = cache_of(&[rsa_key("key-1")]);
    let check = |token: &str, issuer: &str, client: &str| {
        verify_id_token(Some(&cache), token, issuer, client)
    };
    assert_eq!(check(EXPIRED, ISSUER, "client"), Err(IdTokenError::Invalid));
    assert_eq!(check(TOKEN, "https://other.example.com", "client"), Err(IdTokenError::Invalid));
    assert_eq!(check(TOKEN, ISSUER, "other"), Err(IdTokenError::Invalid));
    assert_eq!(check("a.b.c", ISSUER, "client"), Err(IdTokenError::UnreadableHeader));
    let forged = TOKEN.replace(".eyJzdWIiOiJ1MSI", ".eyJzdWIiOiJ1MiI");
    assert_eq!(check(&forged, ISSUER, "client"), Err(IdTokenError::Invalid));
}

#[test]
fn a_token_has_to_name_the_client_and_the_issuer() {
    let cache = cache_of(&[rsa_key("key-1")]);
    let check = |token: &str| verify_id_token(Some(&cache), token, ISSUER, "client");
    assert!(check(TOKEN_FOR_SEVERAL).is_ok());
    assert_eq!(check(TOKEN_FOR_OTHERS), Err(IdTokenError::Invalid));
    assert_eq!(check(TOKEN_FOR_NOBODY), Err(IdTokenError::Invalid));
    assert_eq!(check(TOKEN_FOR_A_NUMBER), Err(IdTokenError::Invalid));
    assert_eq!(check(TOKEN_BY_NOBODY), Err(IdTokenError::Invalid));
}

#[test]
fn other_members_of_the_claims_are_not_read() {
    let cache = cache_of(&[rsa_key("key-1")]);
    for token in [
        TOKEN_WITH_A_HUGE_NUMBER,
        TOKEN_WITH_DEEP_NESTING,
        TOKEN_WITH_A_LONE_SURROGATE,
        TOKEN_WITH_A_BAD_BYTE,
    ] {
        let claims = verify_id_token(Some(&cache), token, ISSUER, "client").unwrap();
        assert!(claims.starts_with(b"{\"x\":"));
        assert_eq!(read_payload(token), Some(claims));
    }
}

#[test]
fn the_payload_stands_between_the_dots() {
    assert_eq!(read_payload("h.e30.s"), Some(b"{}".to_vec()));
    assert_eq!(read_payload("h.e30"), Some(b"{}".to_vec()));
    assert_eq!(read_payload("h..s"), Some(Vec::new()));
    assert_eq!(read_payload("h"), None);
    // padding, bits that are left over, another alphabet
    assert_eq!(read_payload("h.e30=.s"), None);
    assert_eq!(read_payload("h.e31.s"), None);
    assert_eq!(read_payload("h.+/+/.s"), None);
}

#[test]
fn audiences_and_issuers_are_compared_as_texts() {
    assert!(is_for_client(br#"{"aud":"c\u0041"}"#, "cA"));
    assert!(is_for_client(br#"{"aud":["a",1,"c\u0041"]}"#, "cA"));
    assert!(is_for_client(br#"{"aud":["\""]}"#, "\""));
    assert!(!is_for_client(br#"{"aud":["1"]}"#, "\"1\""));
    assert!(!is_for_client(br#"{"aud":[1]}"#, "1"));
    assert!(!is_for_client(br#"{"aud":[]}"#, ""));
    assert!(!is_for_client(br#"{"audience":"c"}"#, "c"));
    assert!(!is_for_client(b"c", "c"));
    assert!(is_by_issuer(br#"{"iss":"i"}"#, "i"));
    assert!(!is_by_issuer(br#"{"iss":["i"]}"#, "i"));
    assert!(!is_by_issuer(b"{}", "i"));
}

#[test]
fn a_token_without_a_key_is_refused() {
    let cache = cache_of(&[rsa_key("key-2")]);
    let missing = Err(IdTokenError::NoMatchingKey);
    assert_eq!(verify_id_token(Some(&cache), TOKEN, ISSUER, "client"), missing);
    assert_eq!(verify_id_token(None, TOKEN, ISSUER, "client"), missing);
    let several = cache_of(&[rsa_key("key-1"), rsa_key("key-2")]);
    assert_eq!(verify_id_token(Some(&several), TOKEN_WITHOUT_KID, ISSUER, "client"), missing);
}

fn discovery() -> OidcDiscovery {
    OidcDiscovery {
        issuer: ISSUER.to_string(),
        authorization_endpoint: "auth".to_string(),
        token_endpoint: "token".to_string(),
        jwks_uri: "uri".to_string(),
        end_session_endpoint: None,
    }
}

fn start(token: &str) -> CheckState {
    CheckState::Start { id_token: token.to_string() }
}

fn begin(cache: Option<&JwksCache>, token: &str) -> (CheckState, CheckAction) {
    check_step(cache, &discovery(), "client", start(token), CheckEvent::Begin)
}

fn is_fetch(step: &(CheckState, CheckAction)) -> bool {
    match step {
        (CheckState::AwaitKeys { .. }, CheckAction::FetchKeys { jwks_uri }) => jwks_uri == "uri",
        _ => false,
    }
}

fn is_refusal(step: &(CheckState, CheckAction), wanted: IdTokenError) -> bool {
    match step {
        (CheckState::Done, CheckAction::Refuse { error }) => *error == wanted,
        _ => false,
    }
}

fn is_acceptance(step: &(CheckState, CheckAction)) -> bool {
    match step {
        (CheckState::Done, CheckAction::Accept { claims }) => claims == CLAIMS.as_bytes(),
        _ => false,
    }
}

#[test]
fn a_fresh_cache_serves_without_a_fetch() {
    let cache = cache_of(&[rsa_key("key-1")]);
    assert!(is_acceptance(&begin(Some(&cache), TOKEN)));
    assert!(is_refusal(&begin(Some(&cache), EXPIRED), IdTokenError::Invalid));
    assert!(is_refusal(&begin(Some(&cache), "no token"), IdTokenError::UnreadableHeader));
}

#[test]
fn stale_or_unreadable_keys_are_fetched() {
    let empty = JwksCache::new();
    assert!(is_fetch(&begin(Some(&empty), TOKEN)));
    assert!(is_fetch(&begin(None, TOKEN)));
    assert!(is_refusal(&begin(None, "no token"), IdTokenError::UnreadableHeader));
    let (state, _) = begin(Some(&empty), TOKEN);
    let cache = cache_of(&[rsa_key("key-1")]);
    let event = CheckEvent::KeysFetched(true);
    assert!(is_acceptance(&check_step(Some(&cache), &discovery(), "client", state, event)));
    let outcome = Ok(CLAIMS.as_bytes().to_vec());
    assert!(is_fetch(&check_step_with("uri", start(TOKEN), CheckEvent::Begin, true, outcome)));
}

#[test]
fn a_missing_key_is_fetched_once() {
    let cache = cache_of(&[rsa_key("key-2")]);
    let step = begin(Some(&cache), TOKEN);
    assert!(is_fetch(&step));
    let event = CheckEvent::KeysFetched(true);
    let step = check_step(Some(&cache), &discovery(), "client", step.0, event);
    assert!(is_refusal(&step, IdTokenError::NoMatchingKey));
    let (state, _) = begin(Some(&cache), TOKEN);
    let event = CheckEvent::KeysFetched(false);
    let step = check_step(Some(&cache), &discovery(), "client", state, event);
    assert!(is_refusal(&step, IdTokenError::KeysNotFetched));
}

#[test]
fn an_event_out_of_turn_refuses_the_token() {
    let cache = cache_of(&[rsa_key("key-1")]);
    let step = |state, event| check_step(Some(&cache), &discovery(), "client", state, event);
    assert!(is_refusal(&step(start(TOKEN), CheckEvent::KeysFetched(true)), IdTokenError::Invalid));
    assert!(is_refusal(&step(CheckState::Done, CheckEvent::Begin), IdTokenError::Invalid));
}

#[test]
fn the_form_carries_the_code_and_the_verifier() {
    let form = token_request_form("id", "secret", "uri", "code", "verifier");
    let fields: Vec<(&str, &str)> =
        form.iter().map(|f| (f.name.as_str(), f.value.as_str())).collect();
    assert_eq!(
        fields,
        vec![
            ("grant_type", "authorization_code"),
            ("code", "code"),
            ("redirect_uri", "uri"),
            ("client_id", "id"),
            ("client_secret", "secret"),
            ("code_verifier", "verifier"),
        ]
    );
}

#[test]
fn success_is_a_status_of_the_two_hundreds() {
    assert!(is_success_status(200));
    assert!(is_success_status(299));
    assert!(!is_success_status(199));
    assert!(!is_success_status(300));
    assert_eq!(
        exchange_failure_message("400 Bad Request", "invalid_grant"),
        "token endpoint returned 400 Bad Request: invalid_grant"
    );
}

#[test]
fn the_exchange_succeeds_by_its_status() {
    assert_eq!(exchange_outcome(201, "201 Created", "{}".to_string()), Ok("{}".to_string()));
    assert_eq!(
        exchange_outcome(400, "400 Bad Request", "invalid_grant".to_string()),
        Err("token endpoint returned 400 Bad Request: invalid_grant".to_string())
    );
}

#[test]
fn the_outcome_follows_from_the_decoded_token() {
    let claims = || Some(br#"{"aud":"c","iss":"i"}"#.to_vec());
    let invalid = Err(IdTokenError::Invalid);
    let missing = Err(IdTokenError::NoMatchingKey);
    assert_eq!(check_outcome(true, claims(), "i", "c"), Ok(claims().unwrap()));
    assert_eq!(check_outcome(true, claims(), "i", "d"), invalid);
    assert_eq!(check_outcome(true, claims(), "j", "c"), invalid);
    assert_eq!(check_outcome(true, None, "i", "c"), invalid);
    assert_eq!(check_outcome(false, claims(), "i", "c"), missing);
    assert_eq!(check_outcome(false, None, "i", "c"), missing);
}
