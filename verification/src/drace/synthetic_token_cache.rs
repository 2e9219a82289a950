//! The keys under which the prompts of a stage are cached.

use crate::drace::hashing;
use crate::drace::hashing::hash_text;
use crate::strs;
use crate::text;
use vstd::prelude::*;

verus! {

/// The version of the keys.
pub const SYNTHETIC_TOKEN_CACHE_VERSION: u32 = 1;

/// The keys of a prompt, with what they were made of.
#[derive(Debug, Clone)]
pub struct SyntheticTokenCachePrepared {
    pub exact_key: String,
    pub semantic_key: String,
    /// The file of the prefix, below the folder of the cache.
    pub prefix_cache_path: Vec<String>,
    pub prompt_chars: usize,
    pub model_id: String,
    pub stage_label: String,
    pub n_ctx: u32,
    pub max_tokens: u32,
    pub system_prompt_hash: String,
    pub user_prompt_hash: String,
    pub prefix_hash: String,
    pub suffix_hash: String,
}

/// The digest of the first or last 1200 characters of a text.
pub fn windowed_hash(value: &str, take_from_start: bool) -> (r: String)
    ensures
        r@ == hashing::text_digest(
            if take_from_start {
                strs::first(value@, 1200)
            } else {
                strs::last(value@, 1200)
            },
        ),
{
    if take_from_start {
        hash_text(&text::first(value, 1200))
    } else {
        hash_text(&text::last(value, 1200))
    }
}

/// A line that opens a block: something in square brackets.
pub open spec fn is_heading(line: Seq<char>) -> bool {
    let t = strs::trim(line);
    strs::starts_with(t, "["@) && strs::ends_with(t, "]"@)
}

/// The lines before the first heading.
pub open spec fn until_heading(lines: Seq<Seq<char>>) -> Seq<Seq<char>>
    decreases lines.len(),
{
    if lines.len() == 0 || is_heading(lines[0]) {
        Seq::empty()
    } else {
        seq![lines[0]] + until_heading(lines.skip(1))
    }
}

/// What stands in the prompt below the heading of that title, where it is not blank.
pub open spec fn prompt_block(prompt: Seq<char>, title: Seq<char>) -> Option<Seq<char>> {
    let marker = "["@ + strs::trim(title) + "]"@;
    match strs::find(prompt, marker) {
        None => None,
        Some(start) => {
            let block = strs::trim(
                strs::join(
                    until_heading(strs::lines(strs::after(prompt, (start + marker.len()) as nat))),
                    "\n"@,
                ),
            );
            if block.len() > 0 {
                Some(block)
            } else {
                None
            }
        },
    }
}

fn extract_prompt_block(prompt: &str, title: &str) -> (r: Option<String>)
    ensures
        strs::opt_view(r) == prompt_block(prompt@, title@),
{
    let mut marker = "[".to_owned();
    marker.append(&text::trim(title));
    marker.append("]");
    let start: usize = match text::find(prompt, &marker) {
        None => {
            return None;
        },
        Some(start) => start,
    };
    let prompt_len: usize = prompt.unicode_len();
    let rest = text::after(prompt, start + marker.unicode_len());
    let lines = text::lines(&rest);
    let ghost all = strs::views(lines@);
    let mut kept: Vec<String> = Vec::new();
    let mut i: usize = 0;
    assert(all.skip(0) =~= all);
    assert(strs::views(kept@) + until_heading(all) =~= until_heading(all));
    let mut open = true;
    while open && i < lines.len()
        invariant
            i <= lines@.len(),
            all == strs::views(lines@),
            open ==> strs::views(kept@) + until_heading(all.skip(i as int)) == until_heading(all),
            !open ==> strs::views(kept@) == until_heading(all),
        decreases lines@.len() - i + (if open { 1int } else { 0int }),
    {
        let ghost before = strs::views(kept@);
        assert(all.skip(i as int)[0] == lines@[i as int]@);
        let trimmed = text::trim(&lines[i]);
        if text::starts_with(&trimmed, "[") && text::ends_with(&trimmed, "]") {
            open = false;
            assert(strs::views(kept@) + Seq::<Seq<char>>::empty() =~= strs::views(kept@));
        } else {
            kept.push(lines[i].clone());
            proof {
                assert(strs::views(kept@) =~= before.push(lines@[i as int]@));
                assert(all.skip(i as int).skip(1) =~= all.skip(i + 1));
                assert(before + (seq![lines@[i as int]@] + until_heading(all.skip(i + 1)))
                    =~= strs::views(kept@) + until_heading(all.skip(i + 1)));
            }
            i += 1;
        }
    }
    assert(strs::views(kept@) + Seq::<Seq<char>>::empty() =~= strs::views(kept@));
    let joined = text::join(&kept, "\n");
    let block = text::trim(&joined);
    if block.unicode_len() > 0 {
        Some(block)
    } else {
        None
    }
}

/// The lines of a text, trimmed, without the empty ones.
pub open spec fn compact_lines(lines: Seq<Seq<char>>) -> Seq<Seq<char>>
    decreases lines.len(),
{
    if lines.len() == 0 {
        Seq::empty()
    } else {
        let head = compact_lines(lines.drop_last());
        let t = strs::trim(lines.last());
        if t.len() > 0 {
            head.push(t)
        } else {
            head
        }
    }
}

/// A block with its lines trimmed and without its empty lines.
pub open spec fn normalized_block(s: Seq<char>) -> Seq<char> {
    strs::join(compact_lines(strs::lines(s)), "\n"@)
}

fn normalize_prompt_block(value: &str) -> (r: String)
    ensures
        r@ == normalized_block(value@),
{
    let lines = text::lines(value);
    let ghost all = strs::views(lines@);
    let mut kept: Vec<String> = Vec::new();
    let mut i: usize = 0;
    assert(strs::views(kept@) =~= compact_lines(all.take(0)));
    while i < lines.len()
        invariant
            i <= lines@.len(),
            all == strs::views(lines@),
            strs::views(kept@) == compact_lines(all.take(i as int)),
        decreases lines@.len() - i,
    {
        let ghost before = strs::views(kept@);
        assert(all.take(i + 1).drop_last() =~= all.take(i as int));
        let trimmed = text::trim(&lines[i]);
        if trimmed.unicode_len() > 0 {
            kept.push(trimmed);
            assert(strs::views(kept@) =~= before.push(trimmed@));
        }
        i += 1;
    }
    assert(all.take(i as int) =~= all);
    text::join(&kept, "\n")
}

/// The titles of the blocks of a prompt that writes a record.
pub open spec fn record_titles() -> Seq<Seq<char>> {
    seq![
        "사용자 입력 상황"@,
        "사건 맥락"@,
        "참고 인물"@,
        "참고 시간 흐름"@,
        "참고 기록"@,
        "관련 법령/참고 기준"@,
        "확인이 더 필요한 부분"@,
        "추가 확인 필요"@,
        "전략 메모"@,
        "HyperCLOVA-X 기록 골격"@,
        "HyperCLOVA-X 초안"@,
        "Roosy-X 초안"@,
        "현재 기록 초안"@,
    ]
}

/// The titles of the blocks of a prompt that analyses a case.
pub open spec fn analysis_titles() -> Seq<Seq<char>> {
    seq![
        "현재 사건 맥락"@,
        "증거 패킷 요약"@,
        "핵심 인물"@,
        "시간 흐름"@,
        "비어 있는 정보"@,
        "증거 참조표"@,
        "관련 법령 참조표"@,
        "전략 메모"@,
        "질문"@,
        "이번 요청"@,
        "질문 초점"@,
        "핵심 근거"@,
        "관련 법령"@,
        "HyperCLOVA-X 초안"@,
        "Roosy-X 초안"@,
    ]
}

/// `title=block` for the titles whose block the prompt has.
pub open spec fn titled_blocks(prompt: Seq<char>, titles: Seq<Seq<char>>) -> Seq<Seq<char>>
    decreases titles.len(),
{
    if titles.len() == 0 {
        Seq::empty()
    } else {
        let head = titled_blocks(prompt, titles.drop_last());
        match prompt_block(prompt, titles.last()) {
            Some(block) => head.push(titles.last() + "="@ + normalized_block(block)),
            None => head,
        }
    }
}

/// What two prompts share that ask for the same: the stage and the blocks with known titles.
pub open spec fn semantic_signature(stage: Seq<char>, prompt: Seq<char>) -> Seq<char> {
    let titles = if strs::contains(prompt, "[사용자 입력 상황]"@) {
        record_titles()
    } else {
        analysis_titles()
    };
    let blocks = titled_blocks(prompt, titles);
    let head = seq!["stage="@ + strs::trim(stage)];
    if blocks.len() == 0 {
        strs::join(head.push(normalized_block(prompt)), "\n\n"@)
    } else {
        strs::join(head + blocks, "\n\n"@)
    }
}

/// What two prompts share that ask for the same.
pub fn build_semantic_prompt_signature(stage_label: &str, user_prompt: &str) -> (r: String)
    ensures
        r@ == semantic_signature(stage_label@, user_prompt@),
{
    let mut stage = "stage=".to_owned();
    stage.append(&text::trim(stage_label));
    let titles: Vec<String> = if text::contains(user_prompt, "[사용자 입력 상황]") {
        text::owned(
            &[
                "사용자 입력 상황",
                "사건 맥락",
                "참고 인물",
                "참고 시간 흐름",
                "참고 기록",
                "관련 법령/참고 기준",
                "확인이 더 필요한 부분",
                "추가 확인 필요",
                "전략 메모",
                "HyperCLOVA-X 기록 골격",
                "HyperCLOVA-X 초안",
                "Roosy-X 초안",
                "현재 기록 초안",
            ],
        )
    } else {
        text::owned(
            &[
                "현재 사건 맥락",
                "증거 패킷 요약",
                "핵심 인물",
                "시간 흐름",
                "비어 있는 정보",
                "증거 참조표",
                "관련 법령 참조표",
                "전략 메모",
                "질문",
                "이번 요청",
                "질문 초점",
                "핵심 근거",
                "관련 법령",
                "HyperCLOVA-X 초안",
                "Roosy-X 초안",
            ],
        )
    };
    let ghost all = strs::views(titles@);
    let ghost head = seq!["stage="@ + strs::trim(stage_label@)];
    let ghost titles_wanted = if strs::contains(user_prompt@, "[사용자 입력 상황]"@) {
        record_titles()
    } else {
        analysis_titles()
    };
    assert(all =~= titles_wanted);
    let mut parts: Vec<String> = Vec::new();
    parts.push(stage);
    let mut i: usize = 0;
    assert(strs::views(parts@) =~= head + titled_blocks(user_prompt@, all.take(0)));
    while i < titles.len()
        invariant
            i <= titles@.len(),
            all == strs::views(titles@),
            head.len() == 1,
            strs::views(parts@) == head + titled_blocks(user_prompt@, all.take(i as int)),
        decreases titles@.len() - i,
    {
        let ghost before = strs::views(parts@);
        assert(all.take(i + 1).drop_last() =~= all.take(i as int));
        if let Some(block) = extract_prompt_block(user_prompt, &titles[i]) {
            let mut part = titles[i].clone();
            part.append("=");
            part.append(&normalize_prompt_block(&block));
            parts.push(part);
            assert(strs::views(parts@) =~= before.push(part@));
        }
        i += 1;
    }
    assert(all.take(i as int) =~= all);
    let ghost blocks = titled_blocks(user_prompt@, all);
    assert(strs::views(parts@).len() == parts@.len());
    if parts.len() == 1 {
        assert(blocks.len() == 0);
        let ghost before = strs::views(parts@);
        parts.push(normalize_prompt_block(user_prompt));
        assert(strs::views(parts@) =~= before.push(normalized_block(user_prompt@)));
        assert(before =~= head);
    }
    text::join(&parts, "\n\n")
}

/// The text whose digest is a key.
pub open spec fn key_text(
    model_id: Seq<char>,
    stage: Seq<char>,
    n_ctx: u32,
    max_tokens: u32,
    system_hash: Seq<char>,
    user_hash: Seq<char>,
) -> Seq<char> {
    "v"@ + strs::decimal(SYNTHETIC_TOKEN_CACHE_VERSION as nat) + "|"@ + strs::trim(model_id) + "|"@
        + strs::trim(stage) + "|"@ + strs::decimal(n_ctx as nat) + "|"@ + strs::decimal(
        max_tokens as nat,
    ) + "|"@ + system_hash + "|"@ + user_hash
}

fn cache_key(
    model_id: &str,
    stage_label: &str,
    n_ctx: u32,
    max_tokens: u32,
    system_hash: &str,
    user_hash: &str,
) -> (r: String)
    ensures
        r@ == hashing::text_digest(
            key_text(model_id@, stage_label@, n_ctx, max_tokens, system_hash@, user_hash@),
        ),
{
    let mut key = "v".to_owned();
    key.append(&text::decimal(SYNTHETIC_TOKEN_CACHE_VERSION as u64));
    key.append("|");
    key.append(&text::trim(model_id));
    key.append("|");
    key.append(&text::trim(stage_label));
    key.append("|");
    key.append(&text::decimal(n_ctx as u64));
    key.append("|");
    key.append(&text::decimal(max_tokens as u64));
    key.append("|");
    key.append(system_hash);
    key.append("|");
    key.append(user_hash);
    hash_text(&key)
}

/// The key of prompts that ask for the same.
pub open spec fn semantic_key_of(
    model_id: Seq<char>,
    stage: Seq<char>,
    system_prompt: Seq<char>,
    user_prompt: Seq<char>,
    n_ctx: u32,
    max_tokens: u32,
) -> Seq<char> {
    hashing::text_digest(
        key_text(
            model_id,
            stage,
            n_ctx,
            max_tokens,
            hashing::text_digest(system_prompt),
            hashing::text_digest(semantic_signature(stage, user_prompt)),
        ),
    )
}

/// The keys of a prompt.
pub fn prepare_synthetic_token_cache(
    model_id: &str,
    stage_label: &str,
    system_prompt: &str,
    user_prompt: &str,
    n_ctx: u32,
    max_tokens: u32,
) -> (r: SyntheticTokenCachePrepared)
    requires
        system_prompt@.len() + user_prompt@.len() <= usize::MAX,
    ensures
        r.exact_key@ == hashing::text_digest(
            key_text(
                model_id@,
                stage_label@,
                n_ctx,
                max_tokens,
                hashing::text_digest(system_prompt@),
                hashing::text_digest(user_prompt@),
            ),
        ),
        r.semantic_key@ == semantic_key_of(
            model_id@,
            stage_label@,
            system_prompt@,
            user_prompt@,
            n_ctx,
            max_tokens,
        ),
        strs::views(r.prefix_cache_path@) == seq![
            "drace"@,
            "synthetic-token-cache"@,
            "prefix-kv"@,
            "prefix-"@ + r.semantic_key@ + ".bin"@,
        ],
        r.prompt_chars == system_prompt@.len() + user_prompt@.len(),
        r.model_id@ == strs::trim(model_id@),
        r.stage_label@ == strs::trim(stage_label@),
        r.n_ctx == n_ctx,
        r.max_tokens == max_tokens,
        r.system_prompt_hash@ == hashing::text_digest(system_prompt@),
        r.user_prompt_hash@ == hashing::text_digest(user_prompt@),
        r.prefix_hash@ == hashing::text_digest(strs::first(user_prompt@, 1200)),
        r.suffix_hash@ == hashing::text_digest(strs::last(user_prompt@, 1200)),
{
    let system_prompt_hash = hash_text(system_prompt);
    let user_prompt_hash = hash_text(user_prompt);
    let signature = build_semantic_prompt_signature(stage_label, user_prompt);
    let semantic_prompt_hash = hash_text(&signature);
    let exact_key = cache_key(
        model_id,
        stage_label,
        n_ctx,
        max_tokens,
        &system_prompt_hash,
        &user_prompt_hash,
    );
    let semantic_key = cache_key(
        model_id,
        stage_label,
        n_ctx,
        max_tokens,
        &system_prompt_hash,
        &semantic_prompt_hash,
    );
    let mut file = "prefix-".to_owned();
    file.append(&semantic_key);
    file.append(".bin");
    let mut path = text::owned(&["drace", "synthetic-token-cache", "prefix-kv"]);
    let ghost folder = strs::views(path@);
    path.push(file);
    assert(strs::views(path@) =~= folder.push(file@));
    assert(folder.push(file@) =~= seq![
        "drace"@,
        "synthetic-token-cache"@,
        "prefix-kv"@,
        "prefix-"@ + semantic_key@ + ".bin"@,
    ]);
    let prompt_chars: usize = system_prompt.unicode_len() + user_prompt.unicode_len();
    SyntheticTokenCachePrepared {
        exact_key,
        semantic_key,
        prefix_cache_path: path,
        prompt_chars,
        model_id: text::trim(model_id),
        stage_label: text::trim(stage_label),
        n_ctx,
        max_tokens,
        system_prompt_hash,
        user_prompt_hash,
        prefix_hash: windowed_hash(user_prompt, true),
        suffix_hash: windowed_hash(user_prompt, false),
    }
}

} // verus!
