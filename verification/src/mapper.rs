//! The entity mapper: turns assembled domain records into generic named
//! rows with stable keys for the downstream entity store. Field names and
//! order are fixed, since consumers bind by name. Within one batch a key is
//! only ever created once: a repeated key is a caller error, reported, not
//! silently merged.

use vstd::prelude::*;
use crate::data::{Pool, PoolModel, Route, RouteModel, Swap, SwapModel, Token, TokenModel};
use crate::engine::{swap_models_of, EngineError};
use crate::numfmt::{dec_of, u64_to_dec};

verus! {

/// One named column of a row.
#[derive(PartialEq, Eq)]
pub struct Field {
    pub name: String,
    pub value: String,
}

/// Mathematical view of a [`Field`].
pub ghost struct FieldModel {
    pub name: Seq<char>,
    pub value: Seq<char>,
}

impl View for Field {
    type V = FieldModel;

    open spec fn view(&self) -> FieldModel {
        FieldModel { name: self.name@, value: self.value@ }
    }
}

/// One row of the entity graph: a table name, a stable key, and the named
/// columns in their fixed order.
#[derive(PartialEq, Eq)]
pub struct Row {
    pub table: String,
    pub key: String,
    pub fields: Vec<Field>,
}

/// Mathematical view of a [`Row`].
pub ghost struct RowModel {
    pub table: Seq<char>,
    pub key: Seq<char>,
    pub fields: Seq<FieldModel>,
}

impl View for Row {
    type V = RowModel;

    open spec fn view(&self) -> RowModel {
        RowModel {
            table: self.table@,
            key: self.key@,
            fields: self.fields@.map_values(|f: Field| f@),
        }
    }
}

/// The views of a sequence of rows.
pub open spec fn row_models_of(rs: Seq<Row>) -> Seq<RowModel> {
    rs.map_values(|r: Row| r@)
}

/// The views of a sequence of pools.
pub open spec fn pool_models_of(ps: Seq<Pool>) -> Seq<PoolModel> {
    ps.map_values(|p: Pool| p@)
}

/// The views of a sequence of tokens.
pub open spec fn token_models_of(ts: Seq<Token>) -> Seq<TokenModel> {
    ts.map_values(|t: Token| t@)
}

/// The views of a sequence of routes.
pub open spec fn route_models_of(rs: Seq<Route>) -> Seq<RouteModel> {
    rs.map_values(|r: Route| r@)
}

/// The row a swap becomes.
pub open spec fn spec_swap_row(s: SwapModel) -> RowModel {
    RowModel {
        table: "Swap"@,
        key: s.id,
        fields: seq![
            FieldModel { name: "transactionHash"@, value: s.transaction_hash },
            FieldModel { name: "blockNumber"@, value: dec_of(s.block_number as nat) },
            FieldModel { name: "blockTimestamp"@, value: s.block_timestamp },
            FieldModel { name: "inputMint"@, value: s.input_mint },
            FieldModel { name: "outputMint"@, value: s.output_mint },
            FieldModel { name: "inputAmount"@, value: s.input_amount },
            FieldModel { name: "outputAmount"@, value: s.output_amount },
            FieldModel { name: "user"@, value: s.user },
            FieldModel { name: "route"@, value: s.route },
            FieldModel { name: "feeAmount"@, value: s.fee_amount },
        ],
    }
}

/// The row a pool becomes.
pub open spec fn spec_pool_row(p: PoolModel) -> RowModel {
    RowModel {
        table: "Pool"@,
        key: p.id,
        fields: seq![
            FieldModel { name: "programId"@, value: p.program_id },
            FieldModel { name: "tokenAMint"@, value: p.token_a_mint },
            FieldModel { name: "tokenBMint"@, value: p.token_b_mint },
            FieldModel { name: "tokenAAmount"@, value: p.token_a_amount },
            FieldModel { name: "tokenBAmount"@, value: p.token_b_amount },
            FieldModel { name: "feeRate"@, value: p.fee_rate },
            FieldModel { name: "creationTimestamp"@, value: p.creation_timestamp },
            FieldModel { name: "lastUpdateTimestamp"@, value: p.last_update_timestamp },
        ],
    }
}

/// The row a token becomes, keyed by its mint.
pub open spec fn spec_token_row(t: TokenModel) -> RowModel {
    RowModel {
        table: "Token"@,
        key: t.mint,
        fields: seq![
            FieldModel { name: "symbol"@, value: t.symbol },
            FieldModel { name: "name"@, value: t.name },
            FieldModel { name: "decimals"@, value: t.decimals },
            FieldModel { name: "totalVolume"@, value: t.total_volume },
            FieldModel { name: "priceUsd"@, value: t.price_usd },
        ],
    }
}

/// The row a route becomes.
pub open spec fn spec_route_row(r: RouteModel) -> RowModel {
    RowModel {
        table: "Route"@,
        key: r.id,
        fields: seq![
            FieldModel { name: "inputMint"@, value: r.input_mint },
            FieldModel { name: "outputMint"@, value: r.output_mint },
            FieldModel { name: "inAmount"@, value: r.in_amount },
            FieldModel { name: "outAmount"@, value: r.out_amount },
            FieldModel { name: "priceImpact"@, value: r.price_impact },
            FieldModel { name: "marketInfoAddress"@, value: r.market_info_address },
        ],
    }
}

/// The whole batch of rows a block's entities become: swaps, then pools,
/// then tokens, then routes, each in input order.
pub open spec fn spec_entity_rows(
    ss: Seq<SwapModel>,
    ps: Seq<PoolModel>,
    ts: Seq<TokenModel>,
    rs: Seq<RouteModel>,
) -> Seq<RowModel> {
    ss.map_values(|s: SwapModel| spec_swap_row(s)) + ps.map_values(|p: PoolModel| spec_pool_row(p))
        + ts.map_values(|t: TokenModel| spec_token_row(t)) + rs.map_values(
        |r: RouteModel| spec_route_row(r),
    )
}

/// The key of each swap.
pub open spec fn spec_swap_keys(ss: Seq<SwapModel>) -> Seq<Seq<char>> {
    ss.map_values(|s: SwapModel| s.id)
}

/// The key of each pool.
pub open spec fn spec_pool_keys(ps: Seq<PoolModel>) -> Seq<Seq<char>> {
    ps.map_values(|p: PoolModel| p.id)
}

/// The key of each token.
pub open spec fn spec_token_keys(ts: Seq<TokenModel>) -> Seq<Seq<char>> {
    ts.map_values(|t: TokenModel| t.mint)
}

/// The key of each route.
pub open spec fn spec_route_keys(rs: Seq<RouteModel>) -> Seq<Seq<char>> {
    rs.map_values(|r: RouteModel| r.id)
}

/// Whether no key occurs twice.
pub open spec fn spec_unique_keys(keys: Seq<Seq<char>>) -> bool {
    forall|a: int, b: int| 0 <= a < b < keys.len() ==> keys[a] != keys[b]
}

/// Whether every key of every batch is unique within its table.
pub open spec fn spec_batch_keys_unique(
    ss: Seq<SwapModel>,
    ps: Seq<PoolModel>,
    ts: Seq<TokenModel>,
    rs: Seq<RouteModel>,
) -> bool {
    &&& spec_unique_keys(spec_swap_keys(ss))
    &&& spec_unique_keys(spec_pool_keys(ps))
    &&& spec_unique_keys(spec_token_keys(ts))
    &&& spec_unique_keys(spec_route_keys(rs))
}

/// The views of a list of keys.
pub open spec fn spec_key_views(keys: Seq<String>) -> Seq<Seq<char>> {
    keys.map_values(|k: String| k@)
}

fn strings_unique(keys: &Vec<String>) -> (r: bool)
    ensures
        r == spec_unique_keys(spec_key_views(keys@)),
{
    let n = keys.len();
    let mut i: usize = 0;
    while i < n
        invariant
            n == keys@.len(),
            i <= n,
            forall|a: int, b: int| 0 <= a < b < n && a < i ==> keys@[a]@ != keys@[b]@,
        decreases n - i,
    {
        let mut j: usize = i + 1;
        while j < n
            invariant
                n == keys@.len(),
                i < n,
                i < j <= n,
                forall|b: int| i < b < j ==> keys@[i as int]@ != keys@[b]@,
            decreases n - j,
        {
            if keys[i] == keys[j] {
                proof {
                    assert(spec_key_views(keys@)[i as int] == spec_key_views(keys@)[j as int]);
                }
                return false;
            }
            j += 1;
        }
        i += 1;
    }
    proof {
        assert forall|a: int, b: int| 0 <= a < b < n implies spec_key_views(keys@)[a]
            != spec_key_views(keys@)[b] by {
            assert(keys@[a]@ != keys@[b]@);
        }
    }
    true
}

fn mk_field(name: &str, value: String) -> (f: Field)
    ensures
        f@ == (FieldModel { name: name@, value: value@ }),
{
    Field { name: name.to_owned(), value }
}

/// Builds the row of one swap, with the fixed field order.
pub fn swap_row(s: &Swap) -> (r: Row)
    ensures
        r@ == spec_swap_row(s@),
{
    let mut fields: Vec<Field> = Vec::new();
    fields.push(mk_field("transactionHash", s.transaction_hash.clone()));
    fields.push(mk_field("blockNumber", u64_to_dec(s.block_number)));
    fields.push(mk_field("blockTimestamp", s.block_timestamp.clone()));
    fields.push(mk_field("inputMint", s.input_mint.clone()));
    fields.push(mk_field("outputMint", s.output_mint.clone()));
    fields.push(mk_field("inputAmount", s.input_amount.clone()));
    fields.push(mk_field("outputAmount", s.output_amount.clone()));
    fields.push(mk_field("user", s.user.clone()));
    fields.push(mk_field("route", s.route.clone()));
    fields.push(mk_field("feeAmount", s.fee_amount.clone()));
    let r = Row { table: "Swap".to_owned(), key: s.id.clone(), fields };
    proof {
        assert(r@.fields =~= spec_swap_row(s@).fields);
    }
    r
}

/// Builds the row of one pool, with the fixed field order.
pub fn pool_row(p: &Pool) -> (r: Row)
    ensures
        r@ == spec_pool_row(p@),
{
    let mut fields: Vec<Field> = Vec::new();
    fields.push(mk_field("programId", p.program_id.clone()));
    fields.push(mk_field("tokenAMint", p.token_a_mint.clone()));
    fields.push(mk_field("tokenBMint", p.token_b_mint.clone()));
    fields.push(mk_field("tokenAAmount", p.token_a_amount.clone()));
    fields.push(mk_field("tokenBAmount", p.token_b_amount.clone()));
    fields.push(mk_field("feeRate", p.fee_rate.clone()));
    fields.push(mk_field("creationTimestamp", p.creation_timestamp.clone()));
    fields.push(mk_field("lastUpdateTimestamp", p.last_update_timestamp.clone()));
    let r = Row { table: "Pool".to_owned(), key: p.id.clone(), fields };
    proof {
        assert(r@.fields =~= spec_pool_row(p@).fields);
    }
    r
}

/// Builds the row of one token, with the fixed field order.
pub fn token_row(t: &Token) -> (r: Row)
    ensures
        r@ == spec_token_row(t@),
{
    let mut fields: Vec<Field> = Vec::new();
    fields.push(mk_field("symbol", t.symbol.clone()));
    fields.push(mk_field("name", t.name.clone()));
    fields.push(mk_field("decimals", t.decimals.clone()));
    fields.push(mk_field("totalVolume", t.total_volume.clone()));
    fields.push(mk_field("priceUsd", t.price_usd.clone()));
    let r = Row { table: "Token".to_owned(), key: t.mint.clone(), fields };
    proof {
        assert(r@.fields =~= spec_token_row(t@).fields);
    }
    r
}

/// Builds the row of one route, with the fixed field order.
pub fn route_row(rt: &Route) -> (r: Row)
    ensures
        r@ == spec_route_row(rt@),
{
    let mut fields: Vec<Field> = Vec::new();
    fields.push(mk_field("inputMint", rt.input_mint.clone()));
    fields.push(mk_field("outputMint", rt.output_mint.clone()));
    fields.push(mk_field("inAmount", rt.in_amount.clone()));
    fields.push(mk_field("outAmount", rt.out_amount.clone()));
    fields.push(mk_field("priceImpact", rt.price_impact.clone()));
    fields.push(mk_field("marketInfoAddress", rt.market_info_address.clone()));
    let r = Row { table: "Route".to_owned(), key: rt.id.clone(), fields };
    proof {
        assert(r@.fields =~= spec_route_row(rt@).fields);
    }
    r
}

fn swap_keys(swaps: &Vec<Swap>) -> (r: Vec<String>)
    ensures
        spec_key_views(r@) == spec_swap_keys(swap_models_of(swaps@)),
{
    let n = swaps.len();
    let mut out: Vec<String> = Vec::new();
    let mut i: usize = 0;
    while i < n
        invariant
            n == swaps@.len(),
            i <= n,
            out@.len() == i,
            forall|k: int| 0 <= k < i ==> out@[k]@ == swaps@[k]@.id,
        decreases n - i,
    {
        out.push(swaps[i].id.clone());
        i += 1;
    }
    proof {
        assert(spec_key_views(out@) =~= spec_swap_keys(swap_models_of(swaps@)));
    }
    out
}

fn pool_keys(pools: &Vec<Pool>) -> (r: Vec<String>)
    ensures
        spec_key_views(r@) == spec_pool_keys(pool_models_of(pools@)),
{
    let n = pools.len();
    let mut out: Vec<String> = Vec::new();
    let mut i: usize = 0;
    while i < n
        invariant
            n == pools@.len(),
            i <= n,
            out@.len() == i,
            forall|k: int| 0 <= k < i ==> out@[k]@ == pools@[k]@.id,
        decreases n - i,
    {
        out.push(pools[i].id.clone());
        i += 1;
    }
    proof {
        assert(spec_key_views(out@) =~= spec_pool_keys(pool_models_of(pools@)));
    }
    out
}

fn token_keys(tokens: &Vec<Token>) -> (r: Vec<String>)
    ensures
        spec_key_views(r@) == spec_token_keys(token_models_of(tokens@)),
{
    let n = tokens.len();
    let mut out: Vec<String> = Vec::new();
    let mut i: usize = 0;
    while i < n
        invariant
            n == tokens@.len(),
            i <= n,
            out@.len() == i,
            forall|k: int| 0 <= k < i ==> out@[k]@ == tokens@[k]@.mint,
        decreases n - i,
    {
        out.push(tokens[i].mint.clone());
        i += 1;
    }
    proof {
        assert(spec_key_views(out@) =~= spec_token_keys(token_models_of(tokens@)));
    }
    out
}

fn route_keys(routes: &Vec<Route>) -> (r: Vec<String>)
    ensures
        spec_key_views(r@) == spec_route_keys(route_models_of(routes@)),
{
    let n = routes.len();
    let mut out: Vec<String> = Vec::new();
    let mut i: usize = 0;
    while i < n
        invariant
            n == routes@.len(),
            i <= n,
            out@.len() == i,
            forall|k: int| 0 <= k < i ==> out@[k]@ == routes@[k]@.id,
        decreases n - i,
    {
        out.push(routes[i].id.clone());
        i += 1;
    }
    proof {
        assert(spec_key_views(out@) =~= spec_route_keys(route_models_of(routes@)));
    }
    out
}

/// Maps one block's entities to their rows. Succeeds exactly when every key
/// is unique within its table; a repeated key is reported as
/// [`EngineError::DuplicateKey`], never silently merged. Rows come out in a
/// fixed order — swaps, pools, tokens, routes, each in input order — so the
/// batch is byte-identical across reruns on the same input.
pub fn graph_out(
    swaps: &Vec<Swap>,
    pools: &Vec<Pool>,
    tokens: &Vec<Token>,
    routes: &Vec<Route>,
) -> (r: Result<Vec<Row>, EngineError>)
    ensures
        ({
            let ss = swap_models_of(swaps@);
            let ps = pool_models_of(pools@);
            let ts = token_models_of(tokens@);
            let rs = route_models_of(routes@);
            match r {
                Ok(rows) => spec_batch_keys_unique(ss, ps, ts, rs) && row_models_of(rows@)
                    == spec_entity_rows(ss, ps, ts, rs),
                Err(e) => !spec_batch_keys_unique(ss, ps, ts, rs) && e
                    == EngineError::DuplicateKey,
            }
        }),
{
    let sk = swap_keys(swaps);
    if !strings_unique(&sk) {
        return Err(EngineError::DuplicateKey);
    }
    let pk = pool_keys(pools);
    if !strings_unique(&pk) {
        return Err(EngineError::DuplicateKey);
    }
    let tk = token_keys(tokens);
    if !strings_unique(&tk) {
        return Err(EngineError::DuplicateKey);
    }
    let rk = route_keys(routes);
    if !strings_unique(&rk) {
        return Err(EngineError::DuplicateKey);
    }
    let ghost ss = swap_models_of(swaps@);
    let ghost ps = pool_models_of(pools@);
    let ghost ts = token_models_of(tokens@);
    let ghost rs = route_models_of(routes@);
    let mut rows: Vec<Row> = Vec::new();
    let n_s = swaps.len();
    let mut i: usize = 0;
    while i < n_s
        invariant
            n_s == swaps@.len(),
            i <= n_s,
            ss == swap_models_of(swaps@),
            row_models_of(rows@) == ss.subrange(0, i as int).map_values(
                |s: SwapModel| spec_swap_row(s),
            ),
        decreases n_s - i,
    {
        let ghost pre = rows@;
        rows.push(swap_row(&swaps[i]));
        proof {
            assert(rows@ =~= pre.push(rows@.last()));
            assert(row_models_of(rows@) =~= row_models_of(pre) + seq![rows@.last()@]);
            assert(ss.subrange(0, i + 1).drop_last() =~= ss.subrange(0, i as int));
            assert(row_models_of(rows@) =~= ss.subrange(0, i + 1).map_values(
                |s: SwapModel| spec_swap_row(s),
            ));
        }
        i += 1;
    }
    proof {
        assert(ss.subrange(0, n_s as int) =~= ss);
    }
    let n_p = pools.len();
    let mut i: usize = 0;
    while i < n_p
        invariant
            n_p == pools@.len(),
            i <= n_p,
            ss == swap_models_of(swaps@),
            ps == pool_models_of(pools@),
            row_models_of(rows@) == ss.map_values(|s: SwapModel| spec_swap_row(s)) + ps.subrange(
                0,
                i as int,
            ).map_values(|p: PoolModel| spec_pool_row(p)),
        decreases n_p - i,
    {
        let ghost pre = rows@;
        rows.push(pool_row(&pools[i]));
        proof {
            assert(rows@ =~= pre.push(rows@.last()));
            assert(row_models_of(rows@) =~= row_models_of(pre) + seq![rows@.last()@]);
            assert(ps.subrange(0, i + 1).drop_last() =~= ps.subrange(0, i as int));
            assert(row_models_of(rows@) =~= ss.map_values(|s: SwapModel| spec_swap_row(s))
                + ps.subrange(0, i + 1).map_values(|p: PoolModel| spec_pool_row(p)));
        }
        i += 1;
    }
    proof {
        assert(ps.subrange(0, n_p as int) =~= ps);
    }
    let n_t = tokens.len();
    let mut i: usize = 0;
    while i < n_t
        invariant
            n_t == tokens@.len(),
            i <= n_t,
            ss == swap_models_of(swaps@),
            ps == pool_models_of(pools@),
            ts == token_models_of(tokens@),
            row_models_of(rows@) == ss.map_values(|s: SwapModel| spec_swap_row(s)) + ps.map_values(
                |p: PoolModel| spec_pool_row(p),
            ) + ts.subrange(0, i as int).map_values(|t: TokenModel| spec_token_row(t)),
        decreases n_t - i,
    {
        let ghost pre = rows@;
        rows.push(token_row(&tokens[i]));
        proof {
            assert(rows@ =~= pre.push(rows@.last()));
            assert(row_models_of(rows@) =~= row_models_of(pre) + seq![rows@.last()@]);
            assert(ts.subrange(0, i + 1).drop_last() =~= ts.subrange(0, i as int));
            assert(row_models_of(rows@) =~= ss.map_values(|s: SwapModel| spec_swap_row(s))
                + ps.map_values(|p: PoolModel| spec_pool_row(p)) + ts.subrange(0, i + 1).map_values(
                |t: TokenModel| spec_token_row(t),
            ));
        }
        i += 1;
    }
    proof {
        assert(ts.subrange(0, n_t as int) =~= ts);
    }
    let n_r = routes.len();
    let mut i: usize = 0;
    while i < n_r
        invariant
            n_r == routes@.len(),
            i <= n_r,
            ss == swap_models_of(swaps@),
            ps == pool_models_of(pools@),
            ts == token_models_of(tokens@),
            rs == route_models_of(routes@),
            row_models_of(rows@) == ss.map_values(|s: SwapModel| spec_swap_row(s)) + ps.map_values(
                |p: PoolModel| spec_pool_row(p),
            ) + ts.map_values(|t: TokenModel| spec_token_row(t)) + rs.subrange(0, i as int).map_values(
                |r2: RouteModel| spec_route_row(r2),
            ),
        decreases n_r - i,
    {
        let ghost pre = rows@;
        rows.push(route_row(&routes[i]));
        proof {
            assert(rows@ =~= pre.push(rows@.last()));
            assert(row_models_of(rows@) =~= row_models_of(pre) + seq![rows@.last()@]);
            assert(rs.subrange(0, i + 1).drop_last() =~= rs.subrange(0, i as int));
            assert(row_models_of(rows@) =~= ss.map_values(|s: SwapModel| spec_swap_row(s))
                + ps.map_values(|p: PoolModel| spec_pool_row(p)) + ts.map_values(
                |t: TokenModel| spec_token_row(t),
            ) + rs.subrange(0, i + 1).map_values(|r2: RouteModel| spec_route_row(r2)));
        }
        i += 1;
    }
    proof {
        assert(rs.subrange(0, n_r as int) =~= rs);
        assert(row_models_of(rows@) == spec_entity_rows(ss, ps, ts, rs));
    }
    Ok(rows)
}

} // verus!
