//! Which flags a list holds, told by the tags that the decisions look for.
//!
//! Risk level, safety and the expected multiple search the flags for a few
//! tags. Every flag that the factors raise carries its own tag and none of
//! the others, so the search finds a tag exactly where the factor that owns
//! it has raised its flag.

use crate::analyzers::token_analyzer::{
    few_holders_flag, flag_if, honeypot_flag, insufficient_data_flag, low_liquidity_flag,
    low_volume_flag, mintable_flag, proxy_flag, security_flags, unknown_liquidity_flag,
    unverified_contract_flag, very_new_flag, TokenAnalyzer,
};
use crate::decimal::{is_decimal_char, Dec};
use crate::models::TokenMetrics;
use crate::text::{
    decimal_digits, lacks, lacks_pair, lemma_any_contains_concat, lemma_digits_lack,
    lemma_lacks_concat, lemma_lacks_excludes, lemma_lacks_pair_excludes, spec_any_contains,
    spec_contains,
};
use vstd::prelude::*;

verus! {

/// The tags found in a list of flags.
pub ghost struct Tags {
    pub honeypot: bool,
    pub whale_dominated: bool,
    pub low_liquidity: bool,
    pub unknown_liquidity: bool,
    pub unverified_contract: bool,
    pub very_new: bool,
}

impl Tags {
    /// No tag.
    pub open spec fn none() -> Tags {
        Tags {
            honeypot: false,
            whale_dominated: false,
            low_liquidity: false,
            unknown_liquidity: false,
            unverified_contract: false,
            very_new: false,
        }
    }

    /// The tags of either.
    pub open spec fn or(self, other: Tags) -> Tags {
        Tags {
            honeypot: self.honeypot || other.honeypot,
            whale_dominated: self.whale_dominated || other.whale_dominated,
            low_liquidity: self.low_liquidity || other.low_liquidity,
            unknown_liquidity: self.unknown_liquidity || other.unknown_liquidity,
            unverified_contract: self.unverified_contract || other.unverified_contract,
            very_new: self.very_new || other.very_new,
        }
    }
}

/// The tags that one text contains.
pub open spec fn text_tags(text: Seq<char>) -> Tags {
    Tags {
        honeypot: spec_contains(text, "HONEYPOT"@),
        whale_dominated: spec_contains(text, "WHALE_DOMINATED"@),
        low_liquidity: spec_contains(text, "LOW_LIQUIDITY"@),
        unknown_liquidity: spec_contains(text, "UNKNOWN_LIQUIDITY"@),
        unverified_contract: spec_contains(text, "UNVERIFIED_CONTRACT"@),
        very_new: spec_contains(text, "VERY_NEW"@),
    }
}

/// The tags that some flag of the list contains.
pub open spec fn tags(flags: Seq<Seq<char>>) -> Tags {
    Tags {
        honeypot: spec_any_contains(flags, "HONEYPOT"@),
        whale_dominated: spec_any_contains(flags, "WHALE_DOMINATED"@),
        low_liquidity: spec_any_contains(flags, "LOW_LIQUIDITY"@),
        unknown_liquidity: spec_any_contains(flags, "UNKNOWN_LIQUIDITY"@),
        unverified_contract: spec_any_contains(flags, "UNVERIFIED_CONTRACT"@),
        very_new: spec_any_contains(flags, "VERY_NEW"@),
    }
}

/// The low-liquidity flag carries its own tag and no other.
pub proof fn lemma_low_liquidity_flag_tags()
    ensures
        text_tags(low_liquidity_flag()) == (Tags { low_liquidity: true, ..Tags::none() }),
{
    let flag = low_liquidity_flag();
    reveal_strlit("🚨 LOW_LIQUIDITY: May be hard to sell");
    reveal_strlit("HONEYPOT");
    reveal_strlit("WHALE_DOMINATED");
    reveal_strlit("LOW_LIQUIDITY");
    reveal_strlit("UNKNOWN_LIQUIDITY");
    reveal_strlit("UNVERIFIED_CONTRACT");
    reveal_strlit("VERY_NEW");
    let start: int = 2;
    assert(flag.subrange(start, start + "LOW_LIQUIDITY"@.len()) =~= "LOW_LIQUIDITY"@);
    assert(lacks(flag, 'H'));
    assert(lacks(flag, 'K'));
    assert(lacks(flag, 'V'));
    lemma_lacks_excludes(flag, "HONEYPOT"@, 0);
    lemma_lacks_excludes(flag, "WHALE_DOMINATED"@, 1);
    lemma_lacks_excludes(flag, "UNKNOWN_LIQUIDITY"@, 2);
    lemma_lacks_excludes(flag, "UNVERIFIED_CONTRACT"@, 2);
    lemma_lacks_excludes(flag, "VERY_NEW"@, 0);
}

/// The unknown-liquidity flag carries its own tag and no other.
pub proof fn lemma_unknown_liquidity_flag_tags()
    ensures
        text_tags(unknown_liquidity_flag()) == (Tags { unknown_liquidity: true, ..Tags::none() }),
{
    let flag = unknown_liquidity_flag();
    reveal_strlit("❓ UNKNOWN_LIQUIDITY: Could not determine liquidity");
    reveal_strlit("HONEYPOT");
    reveal_strlit("WHALE_DOMINATED");
    reveal_strlit("LOW_LIQUIDITY");
    reveal_strlit("UNKNOWN_LIQUIDITY");
    reveal_strlit("UNVERIFIED_CONTRACT");
    reveal_strlit("VERY_NEW");
    let start: int = 2;
    assert(flag.subrange(start, start + "UNKNOWN_LIQUIDITY"@.len()) =~= "UNKNOWN_LIQUIDITY"@);
    assert(lacks(flag, 'H'));
    assert(lacks(flag, 'V'));
    assert(lacks_pair(flag, 'L', 'O'));
    lemma_lacks_excludes(flag, "HONEYPOT"@, 0);
    lemma_lacks_excludes(flag, "WHALE_DOMINATED"@, 1);
    lemma_lacks_pair_excludes(flag, "LOW_LIQUIDITY"@, 0);
    lemma_lacks_excludes(flag, "UNVERIFIED_CONTRACT"@, 2);
    lemma_lacks_excludes(flag, "VERY_NEW"@, 0);
}

/// The low-volume flag carries none of the tags.
pub proof fn lemma_low_volume_flag_tags()
    ensures
        text_tags(low_volume_flag()) == Tags::none(),
{
    let flag = low_volume_flag();
    reveal_strlit("📈 LOW_VOLUME: Very little trading activity");
    reveal_strlit("HONEYPOT");
    reveal_strlit("WHALE_DOMINATED");
    reveal_strlit("LOW_LIQUIDITY");
    reveal_strlit("UNKNOWN_LIQUIDITY");
    reveal_strlit("UNVERIFIED_CONTRACT");
    reveal_strlit("VERY_NEW");
    assert(lacks(flag, 'H'));
    assert(lacks(flag, 'Q'));
    assert(lacks(flag, 'N'));
    lemma_lacks_excludes(flag, "HONEYPOT"@, 0);
    lemma_lacks_excludes(flag, "WHALE_DOMINATED"@, 1);
    lemma_lacks_excludes(flag, "LOW_LIQUIDITY"@, 6);
    lemma_lacks_excludes(flag, "UNKNOWN_LIQUIDITY"@, 10);
    lemma_lacks_excludes(flag, "UNVERIFIED_CONTRACT"@, 1);
    lemma_lacks_excludes(flag, "VERY_NEW"@, 5);
}

/// The unverified-contract flag carries its own tag and no other.
pub proof fn lemma_unverified_contract_flag_tags()
    ensures
        text_tags(unverified_contract_flag()) == (Tags {
            unverified_contract: true,
            ..Tags::none()
        }),
{
    let flag = unverified_contract_flag();
    reveal_strlit("🔒 UNVERIFIED_CONTRACT: Cannot audit contract code");
    reveal_strlit("HONEYPOT");
    reveal_strlit("WHALE_DOMINATED");
    reveal_strlit("LOW_LIQUIDITY");
    reveal_strlit("UNKNOWN_LIQUIDITY");
    reveal_strlit("UNVERIFIED_CONTRACT");
    reveal_strlit("VERY_NEW");
    let start: int = 2;
    assert(flag.subrange(start, start + "UNVERIFIED_CONTRACT"@.len()) =~= "UNVERIFIED_CONTRACT"@);
    assert(lacks(flag, 'H'));
    assert(lacks(flag, 'Q'));
    assert(lacks(flag, 'Y'));
    lemma_lacks_excludes(flag, "HONEYPOT"@, 0);
    lemma_lacks_excludes(flag, "WHALE_DOMINATED"@, 1);
    lemma_lacks_excludes(flag, "LOW_LIQUIDITY"@, 6);
    lemma_lacks_excludes(flag, "UNKNOWN_LIQUIDITY"@, 10);
    lemma_lacks_excludes(flag, "VERY_NEW"@, 3);
}

/// The honeypot flag carries its own tag and no other.
pub proof fn lemma_honeypot_flag_tags()
    ensures
        text_tags(honeypot_flag()) == (Tags { honeypot: true, ..Tags::none() }),
{
    let flag = honeypot_flag();
    reveal_strlit("🍯 HONEYPOT_DETECTED: Cannot sell tokens!");
    reveal_strlit("HONEYPOT");
    reveal_strlit("WHALE_DOMINATED");
    reveal_strlit("LOW_LIQUIDITY");
    reveal_strlit("UNKNOWN_LIQUIDITY");
    reveal_strlit("UNVERIFIED_CONTRACT");
    reveal_strlit("VERY_NEW");
    let start: int = 2;
    assert(flag.subrange(start, start + "HONEYPOT"@.len()) =~= "HONEYPOT"@);
    assert(lacks(flag, 'W'));
    assert(lacks(flag, 'Q'));
    assert(lacks(flag, 'U'));
    assert(lacks(flag, 'V'));
    lemma_lacks_excludes(flag, "WHALE_DOMINATED"@, 0);
    lemma_lacks_excludes(flag, "LOW_LIQUIDITY"@, 6);
    lemma_lacks_excludes(flag, "UNKNOWN_LIQUIDITY"@, 10);
    lemma_lacks_excludes(flag, "UNVERIFIED_CONTRACT"@, 0);
    lemma_lacks_excludes(flag, "VERY_NEW"@, 0);
}

/// The mintable flag carries none of the tags.
pub proof fn lemma_mintable_flag_tags()
    ensures
        text_tags(mintable_flag()) == Tags::none(),
{
    let flag = mintable_flag();
    reveal_strlit("🏭 MINTABLE_TOKEN: Supply can be increased");
    reveal_strlit("HONEYPOT");
    reveal_strlit("WHALE_DOMINATED");
    reveal_strlit("LOW_LIQUIDITY");
    reveal_strlit("UNKNOWN_LIQUIDITY");
    reveal_strlit("UNVERIFIED_CONTRACT");
    reveal_strlit("VERY_NEW");
    assert(lacks(flag, 'H'));
    assert(lacks(flag, 'Q'));
    assert(lacks(flag, 'U'));
    assert(lacks(flag, 'V'));
    lemma_lacks_excludes(flag, "HONEYPOT"@, 0);
    lemma_lacks_excludes(flag, "WHALE_DOMINATED"@, 1);
    lemma_lacks_excludes(flag, "LOW_LIQUIDITY"@, 6);
    lemma_lacks_excludes(flag, "UNKNOWN_LIQUIDITY"@, 10);
    lemma_lacks_excludes(flag, "UNVERIFIED_CONTRACT"@, 0);
    lemma_lacks_excludes(flag, "VERY_NEW"@, 0);
}

/// The proxy flag carries none of the tags.
pub proof fn lemma_proxy_flag_tags()
    ensures
        text_tags(proxy_flag()) == Tags::none(),
{
    let flag = proxy_flag();
    reveal_strlit("🔄 PROXY_CONTRACT: Contract can be upgraded/changed");
    reveal_strlit("HONEYPOT");
    reveal_strlit("WHALE_DOMINATED");
    reveal_strlit("LOW_LIQUIDITY");
    reveal_strlit("UNKNOWN_LIQUIDITY");
    reveal_strlit("UNVERIFIED_CONTRACT");
    reveal_strlit("VERY_NEW");
    assert(lacks(flag, 'H'));
    assert(lacks(flag, 'Q'));
    assert(lacks(flag, 'U'));
    assert(lacks(flag, 'V'));
    lemma_lacks_excludes(flag, "HONEYPOT"@, 0);
    lemma_lacks_excludes(flag, "WHALE_DOMINATED"@, 1);
    lemma_lacks_excludes(flag, "LOW_LIQUIDITY"@, 6);
    lemma_lacks_excludes(flag, "UNKNOWN_LIQUIDITY"@, 10);
    lemma_lacks_excludes(flag, "UNVERIFIED_CONTRACT"@, 0);
    lemma_lacks_excludes(flag, "VERY_NEW"@, 0);
}

/// The very-new flag carries its own tag and no other.
pub proof fn lemma_very_new_flag_tags()
    ensures
        text_tags(very_new_flag()) == (Tags { very_new: true, ..Tags::none() }),
{
    let flag = very_new_flag();
    reveal_strlit("🆕 VERY_NEW: Less than 1 hour old");
    reveal_strlit("HONEYPOT");
    reveal_strlit("WHALE_DOMINATED");
    reveal_strlit("LOW_LIQUIDITY");
    reveal_strlit("UNKNOWN_LIQUIDITY");
    reveal_strlit("UNVERIFIED_CONTRACT");
    reveal_strlit("VERY_NEW");
    let start: int = 2;
    assert(flag.subrange(start, start + "VERY_NEW"@.len()) =~= "VERY_NEW"@);
    assert(lacks(flag, 'H'));
    assert(lacks(flag, 'Q'));
    assert(lacks(flag, 'U'));
    lemma_lacks_excludes(flag, "HONEYPOT"@, 0);
    lemma_lacks_excludes(flag, "WHALE_DOMINATED"@, 1);
    lemma_lacks_excludes(flag, "LOW_LIQUIDITY"@, 6);
    lemma_lacks_excludes(flag, "UNKNOWN_LIQUIDITY"@, 10);
    lemma_lacks_excludes(flag, "UNVERIFIED_CONTRACT"@, 0);
}

/// The flag for insufficient data carries none of the tags.
pub proof fn lemma_insufficient_data_flag_tags()
    ensures
        text_tags(insufficient_data_flag()) == Tags::none(),
{
    let flag = insufficient_data_flag();
    reveal_strlit("❓ INSUFFICIENT_DATA: Cannot analyze properly");
    reveal_strlit("HONEYPOT");
    reveal_strlit("WHALE_DOMINATED");
    reveal_strlit("LOW_LIQUIDITY");
    reveal_strlit("UNKNOWN_LIQUIDITY");
    reveal_strlit("UNVERIFIED_CONTRACT");
    reveal_strlit("VERY_NEW");
    assert(lacks(flag, 'H'));
    assert(lacks(flag, 'Q'));
    assert(lacks(flag, 'V'));
    lemma_lacks_excludes(flag, "HONEYPOT"@, 0);
    lemma_lacks_excludes(flag, "WHALE_DOMINATED"@, 1);
    lemma_lacks_excludes(flag, "LOW_LIQUIDITY"@, 6);
    lemma_lacks_excludes(flag, "UNKNOWN_LIQUIDITY"@, 10);
    lemma_lacks_excludes(flag, "UNVERIFIED_CONTRACT"@, 2);
    lemma_lacks_excludes(flag, "VERY_NEW"@, 0);
}

/// The few-holders flag carries none of the tags, whatever the count.
pub proof fn lemma_few_holders_flag_tags(holders: u32)
    ensures
        text_tags(few_holders_flag(holders)) == Tags::none(),
{
    let head = "👥 FEW_HOLDERS: Only "@;
    let digits = decimal_digits(holders as nat);
    let tail = " holders (risky)"@;
    let flag = few_holders_flag(holders);
    reveal_strlit("👥 FEW_HOLDERS: Only ");
    reveal_strlit(" holders (risky)");
    reveal_strlit("HONEYPOT");
    reveal_strlit("WHALE_DOMINATED");
    reveal_strlit("LOW_LIQUIDITY");
    reveal_strlit("UNKNOWN_LIQUIDITY");
    reveal_strlit("UNVERIFIED_CONTRACT");
    reveal_strlit("VERY_NEW");
    assert(lacks(head, 'P') && lacks(head, 'A') && lacks(head, 'Q') && lacks(head, 'U') && lacks(
        head,
        'V',
    ));
    assert(lacks(tail, 'P') && lacks(tail, 'A') && lacks(tail, 'Q') && lacks(tail, 'U') && lacks(
        tail,
        'V',
    ));
    lemma_digits_lack(holders as nat, 'P');
    lemma_digits_lack(holders as nat, 'A');
    lemma_digits_lack(holders as nat, 'Q');
    lemma_digits_lack(holders as nat, 'U');
    lemma_digits_lack(holders as nat, 'V');
    lemma_lacks_concat(head, digits, 'P');
    lemma_lacks_concat(head + digits, tail, 'P');
    lemma_lacks_concat(head, digits, 'A');
    lemma_lacks_concat(head + digits, tail, 'A');
    lemma_lacks_concat(head, digits, 'Q');
    lemma_lacks_concat(head + digits, tail, 'Q');
    lemma_lacks_concat(head, digits, 'U');
    lemma_lacks_concat(head + digits, tail, 'U');
    lemma_lacks_concat(head, digits, 'V');
    lemma_lacks_concat(head + digits, tail, 'V');
    lemma_lacks_excludes(flag, "HONEYPOT"@, 5);
    lemma_lacks_excludes(flag, "WHALE_DOMINATED"@, 2);
    lemma_lacks_excludes(flag, "LOW_LIQUIDITY"@, 6);
    lemma_lacks_excludes(flag, "UNKNOWN_LIQUIDITY"@, 10);
    lemma_lacks_excludes(flag, "UNVERIFIED_CONTRACT"@, 0);
    lemma_lacks_excludes(flag, "VERY_NEW"@, 0);
}

/// A whale-domination flag carries its own tag and no other, whatever the
/// share, as long as the share is written with the characters of a decimal.
pub proof fn lemma_whale_dominated_flag_tags(share: Seq<char>)
    requires
        forall|i: int| 0 <= i < share.len() ==> is_decimal_char(#[trigger] share[i]),
    ensures
        text_tags("🐋 WHALE_DOMINATED: Top 10 holders own "@ + share + "%"@) == (Tags {
            whale_dominated: true,
            ..Tags::none()
        }),
{
    let head = "🐋 WHALE_DOMINATED: Top 10 holders own "@;
    let tail = "%"@;
    let flag = head + share + tail;
    reveal_strlit("🐋 WHALE_DOMINATED: Top 10 holders own ");
    reveal_strlit("%");
    reveal_strlit("HONEYPOT");
    reveal_strlit("WHALE_DOMINATED");
    reveal_strlit("LOW_LIQUIDITY");
    reveal_strlit("UNKNOWN_LIQUIDITY");
    reveal_strlit("UNVERIFIED_CONTRACT");
    reveal_strlit("VERY_NEW");
    let start: int = 2;
    assert(flag.subrange(start, start + "WHALE_DOMINATED"@.len()) =~= "WHALE_DOMINATED"@);
    assert(lacks(head, 'P') && lacks(head, 'Q') && lacks(head, 'U') && lacks(head, 'V'));
    assert(lacks(tail, 'P') && lacks(tail, 'Q') && lacks(tail, 'U') && lacks(tail, 'V'));
    assert(lacks(share, 'P') && lacks(share, 'Q') && lacks(share, 'U') && lacks(share, 'V'));
    lemma_lacks_concat(head, share, 'P');
    lemma_lacks_concat(head + share, tail, 'P');
    lemma_lacks_concat(head, share, 'Q');
    lemma_lacks_concat(head + share, tail, 'Q');
    lemma_lacks_concat(head, share, 'U');
    lemma_lacks_concat(head + share, tail, 'U');
    lemma_lacks_concat(head, share, 'V');
    lemma_lacks_concat(head + share, tail, 'V');
    lemma_lacks_excludes(flag, "HONEYPOT"@, 5);
    lemma_lacks_excludes(flag, "LOW_LIQUIDITY"@, 6);
    lemma_lacks_excludes(flag, "UNKNOWN_LIQUIDITY"@, 10);
    lemma_lacks_excludes(flag, "UNVERIFIED_CONTRACT"@, 0);
    lemma_lacks_excludes(flag, "VERY_NEW"@, 0);
}

/// A list of one flag holds the tags of that flag.
pub proof fn lemma_tags_of_one(flag: Seq<char>)
    ensures
        tags(seq![flag]) == text_tags(flag),
{
    let list = seq![flag];
    assert(list[0] == flag);
    assert forall|pattern: Seq<char>| #[trigger]
        spec_any_contains(list, pattern) == spec_contains(flag, pattern) by {
        if spec_any_contains(list, pattern) {
            let k = choose|k: int|
                0 <= k < list.len() && spec_contains(#[trigger] list[k], pattern);
            assert(list[k] == flag);
        }
    }
}

/// A flag that may or may not be raised brings its tags where it is raised.
pub proof fn lemma_tags_of_flag_if(raised: bool, flag: Seq<char>)
    ensures
        tags(flag_if(raised, flag)) == if raised {
            text_tags(flag)
        } else {
            Tags::none()
        },
{
    if raised {
        lemma_tags_of_one(flag);
    }
}

/// Two lists put together hold the tags of both.
pub proof fn lemma_tags_of_concat(left: Seq<Seq<char>>, right: Seq<Seq<char>>)
    ensures
        tags(left + right) == tags(left).or(tags(right)),
{
    lemma_any_contains_concat(left, right, "HONEYPOT"@);
    lemma_any_contains_concat(left, right, "WHALE_DOMINATED"@);
    lemma_any_contains_concat(left, right, "LOW_LIQUIDITY"@);
    lemma_any_contains_concat(left, right, "UNKNOWN_LIQUIDITY"@);
    lemma_any_contains_concat(left, right, "UNVERIFIED_CONTRACT"@);
    lemma_any_contains_concat(left, right, "VERY_NEW"@);
}

/// The liquidity factor raises the low-liquidity tag or the
/// unknown-liquidity tag, each exactly where its condition holds, and no
/// other tag.
pub proof fn lemma_liquidity_tags(analyzer: TokenAnalyzer, liquidity: Option<Dec>)
    ensures
        tags(analyzer.liquidity_flags(liquidity)) == (Tags {
            low_liquidity: analyzer.low_liquidity(liquidity),
            unknown_liquidity: liquidity is None,
            ..Tags::none()
        }),
{
    let low = flag_if(analyzer.low_liquidity(liquidity), low_liquidity_flag());
    let unknown = flag_if(liquidity is None, unknown_liquidity_flag());
    lemma_low_liquidity_flag_tags();
    lemma_unknown_liquidity_flag_tags();
    lemma_tags_of_flag_if(analyzer.low_liquidity(liquidity), low_liquidity_flag());
    lemma_tags_of_flag_if(liquidity is None, unknown_liquidity_flag());
    lemma_tags_of_concat(low, unknown);
}

/// The security factor raises the tags of an unverified contract and of a
/// honeypot, each exactly where the metrics say so, and no other tag.
pub proof fn lemma_security_tags(metrics: TokenMetrics)
    ensures
        tags(security_flags(metrics)) == (Tags {
            unverified_contract: metrics.contract_verified == Some(false),
            honeypot: metrics.is_honeypot == Some(true),
            ..Tags::none()
        }),
{
    let s1 = flag_if(metrics.contract_verified == Some(false), unverified_contract_flag());
    let s2 = flag_if(metrics.is_honeypot == Some(true), honeypot_flag());
    let s3 = flag_if(metrics.is_mintable == Some(true), mintable_flag());
    let s4 = flag_if(metrics.has_proxy == Some(true), proxy_flag());
    lemma_unverified_contract_flag_tags();
    lemma_honeypot_flag_tags();
    lemma_mintable_flag_tags();
    lemma_proxy_flag_tags();
    lemma_tags_of_flag_if(metrics.contract_verified == Some(false), unverified_contract_flag());
    lemma_tags_of_flag_if(metrics.is_honeypot == Some(true), honeypot_flag());
    lemma_tags_of_flag_if(metrics.is_mintable == Some(true), mintable_flag());
    lemma_tags_of_flag_if(metrics.has_proxy == Some(true), proxy_flag());
    lemma_tags_of_concat(s1, s2);
    lemma_tags_of_concat(s1 + s2, s3);
    lemma_tags_of_concat(s1 + s2 + s3, s4);
}

} // verus!
