//! What the URLs of the sign-in and the sign-out say to the one who reads them.

use vstd::prelude::*;

#[allow(unused_imports)]
use crate::encoding;
#[allow(unused_imports)]
use crate::text;
#[allow(unused_imports)]
use crate::text_laws;
#[allow(unused_imports)]
use crate::urls;

verus! {

proof fn lemma_component_without(s: Seq<char>, c: char)
    requires
        !encoding::is_unreserved(c),
        c != '%',
    ensures
        !encoding::url_component(s).contains(c),
{
    encoding::law_url_component_is_safe(s);
    let u = encoding::url_component(s);
    if u.contains(c) {
        let i = choose|i: int| 0 <= i < u.len() && u[i] == c;
        assert(encoding::is_unreserved(u[i]) || u[i] == '%');
    }
}

proof fn lemma_joined_without(a: Seq<char>, b: Seq<char>, c: char)
    requires
        !a.contains(c),
        !b.contains(c),
    ensures
        !(a + b).contains(c),
{
    if (a + b).contains(c) {
        let i = choose|i: int| 0 <= i < (a + b).len() && (a + b)[i] == c;
        if i < a.len() {
            assert(a.contains(a[i]));
        } else {
            assert(b.contains(b[i - a.len()]));
        }
    }
}

/// The query of the authorization request, split at `?` and at each `&`, holds these
/// seven parameters in this order and nothing else, each value percent-encoded.
pub proof fn law_authz_parameters(
    client_id: Seq<char>,
    redirect_uri: Seq<char>,
    api_indicator: Seq<char>,
    state: Seq<char>,
    challenge: Seq<char>,
)
    ensures
        ({
            let query = urls::authz_query(client_id, redirect_uri, api_indicator, state, challenge);
            let q1 = text::after(query, '?')->0;
            let q2 = text::after(q1, '&')->0;
            let q3 = text::after(q2, '&')->0;
            let q4 = text::after(q3, '&')->0;
            let q5 = text::after(q4, '&')->0;
            let q6 = text::after(q5, '&')->0;
            let q7 = text::after(q6, '&')->0;
            &&& query.len() > 0 && query[0] == '?'
            &&& text::before(q1, '&') == "response_type=code"@
            &&& text::before(q2, '&') == "client_id="@ + encoding::url_component(client_id)
            &&& text::before(q3, '&') == "redirect_uri="@ + encoding::url_component(redirect_uri)
            &&& text::before(q4, '&') == "state="@ + encoding::url_component(state)
            &&& text::before(q5, '&') == "scope=openid profile email "@ + encoding::url_component(
                api_indicator,
            )
            &&& text::before(q6, '&') == "code_challenge="@ + encoding::url_component(challenge)
            &&& q7 == "code_challenge_method=S256"@
        }),
{
    let query = urls::authz_query(client_id, redirect_uri, api_indicator, state, challenge);
    reveal_strlit("?response_type=code&client_id=");
    reveal_strlit("&redirect_uri=");
    reveal_strlit("&state=");
    reveal_strlit("&scope=openid profile email ");
    reveal_strlit("&code_challenge=");
    reveal_strlit("&code_challenge_method=S256");
    reveal_strlit("response_type=code");
    reveal_strlit("client_id=");
    reveal_strlit("redirect_uri=");
    reveal_strlit("state=");
    reveal_strlit("scope=openid profile email ");
    reveal_strlit("code_challenge=");
    reveal_strlit("code_challenge_method=S256");
    let amp = seq!['&'];
    let p1 = "response_type=code"@;
    let p2 = "client_id="@ + encoding::url_component(client_id);
    let p3 = "redirect_uri="@ + encoding::url_component(redirect_uri);
    let p4 = "state="@ + encoding::url_component(state);
    let p5 = "scope=openid profile email "@ + encoding::url_component(api_indicator);
    let p6 = "code_challenge="@ + encoding::url_component(challenge);
    let p7 = "code_challenge_method=S256"@;
    assert("?response_type=code&client_id="@ =~= seq!['?'] + p1 + amp + "client_id="@);
    assert("&redirect_uri="@ =~= amp + "redirect_uri="@);
    assert("&state="@ =~= amp + "state="@);
    assert("&scope=openid profile email "@ =~= amp + "scope=openid profile email "@);
    assert("&code_challenge="@ =~= amp + "code_challenge="@);
    assert("&code_challenge_method=S256"@ =~= amp + p7);
    let r6 = p6 + amp + p7;
    let r5 = p5 + amp + r6;
    let r4 = p4 + amp + r5;
    let r3 = p3 + amp + r4;
    let r2 = p2 + amp + r3;
    let r1 = p1 + amp + r2;
    assert(query =~= Seq::<char>::empty() + seq!['?'] + r1);
    lemma_component_without(client_id, '&');
    lemma_component_without(redirect_uri, '&');
    lemma_component_without(state, '&');
    lemma_component_without(api_indicator, '&');
    lemma_component_without(challenge, '&');
    lemma_joined_without("client_id="@, encoding::url_component(client_id), '&');
    lemma_joined_without("redirect_uri="@, encoding::url_component(redirect_uri), '&');
    lemma_joined_without("state="@, encoding::url_component(state), '&');
    lemma_joined_without(
        "scope=openid profile email "@,
        encoding::url_component(api_indicator),
        '&',
    );
    lemma_joined_without("code_challenge="@, encoding::url_component(challenge), '&');
    text_laws::law_split_undoes_join(seq![], '?', r1);
    text_laws::law_split_undoes_join(p1, '&', r2);
    text_laws::law_split_undoes_join(p2, '&', r3);
    text_laws::law_split_undoes_join(p3, '&', r4);
    text_laws::law_split_undoes_join(p4, '&', r5);
    text_laws::law_split_undoes_join(p5, '&', r6);
    text_laws::law_split_undoes_join(p6, '&', p7);
}

/// The discovery document stands below the issuer, with one slash between them,
/// however many slashes the issuer ends with.
pub proof fn law_discovery_location(issuer: Seq<char>, slashes: nat)
    requires
        issuer.len() > 0 ==> issuer.last() != '/',
    ensures
        urls::discovery_location(issuer + Seq::new(slashes, |i: int| '/')) == issuer
            + "/.well-known/openid-configuration"@,
{
    text_laws::law_trim_end_undoes_repetition(issuer, '/', slashes);
}

/// The web application stands at its address, and the sign-out leads to the endpoint
/// of the provider with the address to come back to, or else to the sign-in page.
pub proof fn law_web_locations(
    web_url: Seq<char>,
    base_uri: Seq<char>,
    endpoint: Seq<char>,
    post_logout_uri: Seq<char>,
)
    ensures
        urls::web_location(web_url, base_uri) == web_url + base_uri + "/web/"@,
        urls::logout_location(None, post_logout_uri, web_url, base_uri) == web_url + base_uri
            + "/login"@,
        urls::logout_location(Some(endpoint), post_logout_uri, web_url, base_uri) == endpoint
            + "?post_logout_redirect_uri="@ + encoding::url_component(post_logout_uri),
{
}

/// A percent-encoded text is that of its parts, and a byte of a text is either written
/// as the unreserved character that it is the code of, or as `%` and the two
/// hexadecimal digits of it.
pub proof fn law_url_component_of_bytes(b: u8, rest: Seq<u8>)
    ensures
        encoding::percent_bytes(seq![b] + rest) == encoding::percent_bytes(seq![b])
            + encoding::percent_bytes(rest),
        encoding::percent_bytes(seq![]) == Seq::<char>::empty(),
        encoding::percent_bytes(seq![b]).len() == 1 ==> encoding::percent_bytes(seq![b])[0] as int
            == b as int,
        encoding::percent_bytes(seq![b]).len() != 1 ==> encoding::percent_bytes(seq![b]).len() == 3
            && encoding::percent_bytes(seq![b])[0] == '%' && 16 * encoding::hex_value(
            encoding::percent_bytes(seq![b])[1],
        ) + encoding::hex_value(encoding::percent_bytes(seq![b])[2]) == b as int,
{
    reveal_with_fuel(encoding::percent_bytes, 2);
    let one = seq![b];
    assert(one.skip(1) =~= seq![]);
    assert((seq![b] + rest).skip(1) =~= rest);
    assert(encoding::percent_bytes(one) =~= encoding::percent_byte(b));
    assert((b as int / 16) < 16 && (b as int % 16) < 16);
    let hi = b as int / 16;
    let lo = b as int % 16;
    assert(hi < 10 ==> encoding::upper_hex_digit(hi) as int == '0' as int + hi);
    assert(hi >= 10 ==> encoding::upper_hex_digit(hi) as int == 'A' as int + hi - 10);
    assert(lo < 10 ==> encoding::upper_hex_digit(lo) as int == '0' as int + lo);
    assert(lo >= 10 ==> encoding::upper_hex_digit(lo) as int == 'A' as int + lo - 10);
}

} // verus!
