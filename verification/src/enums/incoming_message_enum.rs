//! The closed union of every event the inbound decoder can produce.
//!
//! One decode routine constructs each value; it is delivered once over the
//! event queue and consumed by the application.

use vstd::prelude::*;
use crate::models::account_summary::AccountSummary;
use crate::models::bar::Bar;
use crate::models::contract_details::ContractDetails;
use crate::models::order_data_item::OrderDataItem;
use crate::models::order_status_message::OrderStatusMessage;
use crate::models::scan_data_item::ScanDataItem;
use crate::models::tick_last::TickLast;
use crate::double::Double;

verus! {

pub enum IncomingMessagesEnum {
    NotValid,
    TickPrice,
    TickSize,
    OrderStatus(OrderStatusMessage),
    Error(i32, i32, String),
    OpenOrder(OrderDataItem),
    AccountValue,
    PortfolioValue,
    AccountUpdateTime,
    NextValidId(i32),
    ContractData(i32, ContractDetails),
    ExecutionData,
    MarketDepth,
    MarketDepthL2,
    NewsBulletins,
    ManagedAccounts(String),
    ReceiveFa,
    HistoricalData(Bar),
    HistoricalDataEnd(i32, String, String),
    BondContractData,
    ScannerParameters,
    ScannerData(Vec<ScanDataItem>),
    TickOptionComputation,
    TickGeneric(i32, i32, Double),
    TickString,
    TickEfp,
    CurrentTime,
    RealTimeBars(i32, Bar),
    FundamentalData,
    ContractDataEnd(i32),
    OpenOrderEnd,
    AccountDownloadEnd,
    ExecutionDataEnd,
    DeltaNeutralValidation,
    TickSnapshotEnd,
    MarketDataType,
    CommissionsReport,
    Position,
    PositionEnd,
    AccountSummary(AccountSummary),
    AccountSummaryEnd(i32),
    VerifyMessageApi,
    VerifyCompleted,
    DisplayGroupList,
    DisplayGroupUpdated,
    VerifyAndAuthMessageApi,
    VerifyAndAuthCompleted,
    PositionMulti,
    PositionMultiEnd,
    AccountUpdateMulti,
    AccountUpdateMultiEnd,
    SecurityDefinitionOptionParameter,
    SecurityDefinitionOptionParameterEnd,
    SoftDollarTier,
    FamilyCodes,
    SymbolSamples,
    MktDepthExchanges,
    TickReqParams,
    SmartComponents,
    NewsArticle,
    TickNews,
    NewsProviders,
    HistoricalNews,
    HistoricalNewsEnd,
    HeadTimestamp,
    HistogramData,
    HistoricalDataUpdate,
    RerouteMktDataReq,
    RerouteMktDepthReq,
    MarketRule,
    PnL(i32, Double, Double, Double),
    PnLsingle,
    HistoricalTick,
    HistoricalTickBidAsk,
    HistoricalTickLast,
    TickByTick,
    TickByTickLast(i32, TickLast),
    OrderBound,
    CompletedOrder,
    CompletedOrdersEnd,
    Stop,
}

} // verus!
