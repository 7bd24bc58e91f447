//! The FIX 4.2 field dictionary: tag numbers and the value sets of enumerated fields.
#![allow(non_camel_case_types)]

use vstd::prelude::*;
use crate::decode::DecodeError;

verus! {

/// Is `msg_type` one of the session-level message types (`0 1 2 3 4 5 A`)?
pub open spec fn spec_is_session_message(msg_type: char) -> bool {
    msg_type == '0' || msg_type == '1' || msg_type == '2' || msg_type == '3' || msg_type == '4'
        || msg_type == '5' || msg_type == 'A'
}

pub fn is_session_message(msg_type: char) -> (r: bool)
    ensures
        r == spec_is_session_message(msg_type),
{
    msg_type == '0' || msg_type == '1' || msg_type == '2' || msg_type == '3' || msg_type == '4'
        || msg_type == '5' || msg_type == 'A'
}

/// The data tag whose value length a length tag gives (`93` gives the length of `89`).
pub open spec fn spec_data_ref(tag: u32) -> Option<u32> {
    match tag {
        93 => Some(89),
        90 => Some(91),
        95 => Some(96),
        212 => Some(213),
        348 => Some(349),
        350 => Some(351),
        352 => Some(353),
        354 => Some(355),
        356 => Some(357),
        358 => Some(359),
        360 => Some(361),
        362 => Some(363),
        364 => Some(365),
        445 => Some(446),
        _ => None,
    }
}

pub fn get_data_ref(tag: u32) -> (r: Option<u32>)
    ensures
        r == spec_data_ref(tag),
{
    match tag {
        93 => Some(89),
        90 => Some(91),
        95 => Some(96),
        212 => Some(213),
        348 => Some(349),
        350 => Some(351),
        352 => Some(353),
        354 => Some(355),
        356 => Some(357),
        358 => Some(359),
        360 => Some(361),
        362 => Some(363),
        364 => Some(365),
        445 => Some(446),
        _ => None,
    }
}

#[derive(Debug, Clone, Copy, PartialEq, Eq, Structural)]
pub enum Tags {
    Account,
    AdvId,
    AdvRefID,
    AdvSide,
    AdvTransType,
    AvgPx,
    BeginSeqNo,
    BeginString,
    BodyLength,
    CheckSum,
    ClOrdID,
    Commission,
    CommType,
    CumQty,
    Currency,
    EndSeqNo,
    ExecID,
    ExecInst,
    ExecRefID,
    ExecTransType,
    HandlInst,
    IDSource,
    IOIid,
    IOIOthSvc,
    IOIQltyInd,
    IOIRefID,
    IOIShares,
    IOITransType,
    LastCapacity,
    LastMkt,
    LastPx,
    LastShares,
    LinesOfText,
    MsgSeqNum,
    MsgType,
    NewSeqNo,
    OrderID,
    OrderQty,
    OrdStatus,
    OrdType,
    OrigClOrdID,
    OrigTime,
    PossDupFlag,
    Price,
    RefSeqNum,
    RelatdSym,
    Rule80A,
    SecurityID,
    SenderCompID,
    SenderSubID,
    SendingDate,
    SendingTime,
    Shares,
    Side,
    Symbol,
    TargetCompID,
    TargetSubID,
    Text,
    TimeInForce,
    TransactTime,
    Urgency,
    ValidUntilTime,
    SettlmntTyp,
    FutSettDate,
    SymbolSfx,
    ListID,
    ListSeqNo,
    TotNoOrders,
    ListExecInst,
    AllocID,
    AllocTransType,
    RefAllocID,
    NoOrders,
    AvgPrxPrecision,
    TradeDate,
    ExecBroker,
    OpenClose,
    NoAllocs,
    AllocAccount,
    AllocShares,
    ProcessCode,
    NoRpts,
    RptSeq,
    CxlQty,
    NoDlvyInst,
    DlvyInst,
    AllocStatus,
    AllocRejCode,
    Signature,
    SecureDataLen,
    SecureData,
    BrokerOfCredit,
    SignatureLength,
    EmailType,
    RawDataLength,
    RawData,
    PossResend,
    EncryptMethod,
    StopPx,
    ExDestination,
    CxlRejReason,
    OrdRejReason,
    IOIQualifier,
    WaveNo,
    Issuer,
    SecurityDesc,
    HeartBtInt,
    ClientID,
    MinQty,
    MaxFloor,
    TestReqID,
    ReportToExch,
    LocateReqd,
    OnBehalfOfCompID,
    OnBehalfOfSubID,
    QuoteID,
    NetMoney,
    SettlCurrAmt,
    SettlCurrency,
    ForexReq,
    OrigSendingTime,
    GapFillFlag,
    NoExecs,
    CxlType,
    ExpireTime,
    DKReason,
    DeliverToCompID,
    DeliverToSubID,
    IOINaturalFlag,
    QuoteReqID,
    BidPx,
    OfferPx,
    BidSize,
    OfferSize,
    NoMiscFees,
    MiscFeeAmt,
    MiscFeeCurr,
    MiscFeeType,
    PrevClosePx,
    ResetSeqNumFlag,
    SenderLocationID,
    TargetLocationID,
    OnBehalfOfLocationID,
    DeliverToLocationID,
    NoRelatedSym,
    Subject,
    Headline,
    URLLink,
    ExecType,
    LeavesQty,
    CashOrderQty,
    AllocAvgPx,
    AllocNetMoney,
    SettlCurrFxRate,
    SettlCurrFxRateCalc,
    NumDaysInterest,
    AccruedInterestRate,
    AccruedInterestAmt,
    SettlInstMode,
    AllocText,
    SettlInstID,
    SettlInstTransType,
    EmailThreadID,
    SettlInstSource,
    SettlLocation,
    SecurityType,
    EffectiveTime,
    StandInstDbType,
    StandInstDbName,
    StandInstDbID,
    SettlDeliveryType,
    SettlDepositoryCode,
    SettlBrkrCode,
    SettlInstCode,
    SecuritySettlAgentName,
    SecuritySettlAgentCode,
    SecuritySettlAgentAcctNum,
    SecuritySettlAgentAcctName,
    SecuritySettlAgentContactName,
    SecuritySettlAgentContactPhone,
    CashSettlAgentName,
    CashSettlAgentCode,
    CashSettlAgentAcctNum,
    CashSettlAgentAcctName,
    CashSettlAgentContactName,
    CashSettlAgentContactPhone,
    BidSpotRate,
    BidForwardPoints,
    OfferSpotRate,
    OfferForwardPoints,
    OrderQty2,
    FutSettDate2,
    LastSpotRate,
    LastForwardPoints,
    AllocLinkID,
    AllocLinkType,
    SecondaryOrderID,
    NoIOIQualifiers,
    MaturityMonthYear,
    PutOrCall,
    StrikePrice,
    CoveredOrUncovered,
    CustomerOrFirm,
    MaturityDay,
    OptAttribute,
    SecurityExchange,
    NotifyBrokerOfCredit,
    AllocHandlInst,
    MaxShow,
    PegDifference,
    XmlDataLen,
    XmlData,
    SettlInstRefID,
    NoRoutingIDs,
    RoutingType,
    RoutingID,
    SpreadToBenchmark,
    Benchmark,
    CouponRate,
    ContractMultiplier,
    MDReqID,
    SubscriptionRequestType,
    MarketDepth,
    MDUpdateType,
    AggregatedBook,
    NoMDEntryTypes,
    NoMDEntries,
    MDEntryType,
    MDEntryPx,
    MDEntrySize,
    MDEntryDate,
    MDEntryTime,
    TickDirection,
    MDMkt,
    QuoteCondition,
    TradeCondition,
    MDEntryID,
    MDUpdateAction,
    MDEntryRefID,
    MDReqRejReason,
    MDEntryOriginator,
    LocationID,
    DeskID,
    DeleteReason,
    OpenCloseSettleFlag,
    SellerDays,
    MDEntryBuyer,
    MDEntrySeller,
    MDEntryPositionNo,
    FinancialStatus,
    CorporateAction,
    DefBidSize,
    DefOfferSize,
    NoQuoteEntries,
    NoQuoteSets,
    QuoteAckStatus,
    QuoteCancelType,
    QuoteEntryID,
    QuoteRejectReason,
    QuoteResponseLevel,
    QuoteSetID,
    QuoteRequestType,
    TotQuoteEntries,
    UnderlyingIDSource,
    UnderlyingIssuer,
    UnderlyingSecurityDesc,
    UnderlyingSecurityExchange,
    UnderlyingSecurityID,
    UnderlyingSecurityType,
    UnderlyingSymbol,
    UnderlyingSymbolSfx,
    UnderlyingMaturityMonthYear,
    UnderlyingMaturityDay,
    UnderlyingPutOrCall,
    UnderlyingStrikePrice,
    UnderlyingOptAttribute,
    UnderlyingCurrency,
    RatioQty,
    SecurityReqID,
    SecurityRequestType,
    SecurityResponseID,
    SecurityResponseType,
    SecurityStatusReqID,
    UnsolicitedIndicator,
    SecurityTradingStatus,
    HaltReasonChar,
    InViewOfCommon,
    DueToRelated,
    BuyVolume,
    SellVolume,
    HighPx,
    LowPx,
    Adjustment,
    TradSesReqID,
    TradingSessionID,
    ContraTrader,
    TradSesMethod,
    TradSesMode,
    TradSesStatus,
    TradSesStartTime,
    TradSesOpenTime,
    TradSesPreCloseTime,
    TradSesCloseTime,
    TradSesEndTime,
    NumberOfOrders,
    MessageEncoding,
    EncodedIssuerLen,
    EncodedIssuer,
    EncodedSecurityDescLen,
    EncodedSecurityDesc,
    EncodedListExecInstLen,
    EncodedListExecInst,
    EncodedTextLen,
    EncodedText,
    EncodedSubjectLen,
    EncodedSubject,
    EncodedHeadlineLen,
    EncodedHeadline,
    EncodedAllocTextLen,
    EncodedAllocText,
    EncodedUnderlyingIssuerLen,
    EncodedUnderlyingIssuer,
    EncodedUnderlyingSecurityDescLen,
    EncodedUnderlyingSecurityDesc,
    AllocPrice,
    QuoteSetValidUntilTime,
    QuoteEntryRejectReason,
    LastMsgSeqNumProcessed,
    OnBehalfOfSendingTime,
    RefTagID,
    RefMsgType,
    SessionRejectReason,
    BidRequestTransType,
    ContraBroker,
    ComplianceID,
    SolicitedFlag,
    ExecRestatementReason,
    BusinessRejectRefID,
    BusinessRejectReason,
    GrossTradeAmt,
    NoContraBrokers,
    MaxMessageSize,
    NoMsgTypes,
    MsgDirection,
    NoTradingSessions,
    TotalVolumeTraded,
    DiscretionInst,
    DiscretionOffset,
    BidID,
    ClientBidID,
    ListName,
    TotalNumSecurities,
    BidType,
    NumTickets,
    SideValue1,
    SideValue2,
    NoBidDescriptors,
    BidDescriptorType,
    BidDescriptor,
    SideValueInd,
    LiquidityPctLow,
    LiquidityPctHigh,
    LiquidityValue,
    EFPTrackingError,
    FairValue,
    OutsideIndexPct,
    ValueOfFutures,
    LiquidityIndType,
    WtAverageLiquidity,
    ExchangeForPhysical,
    OutMainCntryUIndex,
    CrossPercent,
    ProgRptReqs,
    ProgPeriodInterval,
    IncTaxInd,
    NumBidders,
    TradeType,
    BasisPxType,
    NoBidComponents,
    Country,
    TotNoStrikes,
    PriceType,
    DayOrderQty,
    DayCumQty,
    DayAvgPx,
    GTBookingInst,
    NoStrikes,
    ListStatusType,
    NetGrossInd,
    ListOrderStatus,
    ExpireDate,
    ListExecInstType,
    CxlRejResponseTo,
    UnderlyingCouponRate,
    UnderlyingContractMultiplier,
    ContraTradeQty,
    ContraTradeTime,
    ClearingFirm,
    ClearingAccount,
    LiquidityNumSecurities,
    MultiLegReportingType,
    StrikeTime,
    ListStatusText,
    EncodedListStatusTextLen,
    EncodedListStatusText,
}

impl Tags {
    pub open spec fn spec_num(self) -> u32 {
        match self {
            Tags::Account => 1,
            Tags::AdvId => 2,
            Tags::AdvRefID => 3,
            Tags::AdvSide => 4,
            Tags::AdvTransType => 5,
            Tags::AvgPx => 6,
            Tags::BeginSeqNo => 7,
            Tags::BeginString => 8,
            Tags::BodyLength => 9,
            Tags::CheckSum => 10,
            Tags::ClOrdID => 11,
            Tags::Commission => 12,
            Tags::CommType => 13,
            Tags::CumQty => 14,
            Tags::Currency => 15,
            Tags::EndSeqNo => 16,
            Tags::ExecID => 17,
            Tags::ExecInst => 18,
            Tags::ExecRefID => 19,
            Tags::ExecTransType => 20,
            Tags::HandlInst => 21,
            Tags::IDSource => 22,
            Tags::IOIid => 23,
            Tags::IOIOthSvc => 24,
            Tags::IOIQltyInd => 25,
            Tags::IOIRefID => 26,
            Tags::IOIShares => 27,
            Tags::IOITransType => 28,
            Tags::LastCapacity => 29,
            Tags::LastMkt => 30,
            Tags::LastPx => 31,
            Tags::LastShares => 32,
            Tags::LinesOfText => 33,
            Tags::MsgSeqNum => 34,
            Tags::MsgType => 35,
            Tags::NewSeqNo => 36,
            Tags::OrderID => 37,
            Tags::OrderQty => 38,
            Tags::OrdStatus => 39,
            Tags::OrdType => 40,
            Tags::OrigClOrdID => 41,
            Tags::OrigTime => 42,
            Tags::PossDupFlag => 43,
            Tags::Price => 44,
            Tags::RefSeqNum => 45,
            Tags::RelatdSym => 46,
            Tags::Rule80A => 47,
            Tags::SecurityID => 48,
            Tags::SenderCompID => 49,
            Tags::SenderSubID => 50,
            Tags::SendingDate => 51,
            Tags::SendingTime => 52,
            Tags::Shares => 53,
            Tags::Side => 54,
            Tags::Symbol => 55,
            Tags::TargetCompID => 56,
            Tags::TargetSubID => 57,
            Tags::Text => 58,
            Tags::TimeInForce => 59,
            Tags::TransactTime => 60,
            Tags::Urgency => 61,
            Tags::ValidUntilTime => 62,
            Tags::SettlmntTyp => 63,
            Tags::FutSettDate => 64,
            Tags::SymbolSfx => 65,
            Tags::ListID => 66,
            Tags::ListSeqNo => 67,
            Tags::TotNoOrders => 68,
            Tags::ListExecInst => 69,
            Tags::AllocID => 70,
            Tags::AllocTransType => 71,
            Tags::RefAllocID => 72,
            Tags::NoOrders => 73,
            Tags::AvgPrxPrecision => 74,
            Tags::TradeDate => 75,
            Tags::ExecBroker => 76,
            Tags::OpenClose => 77,
            Tags::NoAllocs => 78,
            Tags::AllocAccount => 79,
            Tags::AllocShares => 80,
            Tags::ProcessCode => 81,
            Tags::NoRpts => 82,
            Tags::RptSeq => 83,
            Tags::CxlQty => 84,
            Tags::NoDlvyInst => 85,
            Tags::DlvyInst => 86,
            Tags::AllocStatus => 87,
            Tags::AllocRejCode => 88,
            Tags::Signature => 89,
            Tags::SecureDataLen => 90,
            Tags::SecureData => 91,
            Tags::BrokerOfCredit => 92,
            Tags::SignatureLength => 93,
            Tags::EmailType => 94,
            Tags::RawDataLength => 95,
            Tags::RawData => 96,
            Tags::PossResend => 97,
            Tags::EncryptMethod => 98,
            Tags::StopPx => 99,
            Tags::ExDestination => 100,
            Tags::CxlRejReason => 102,
            Tags::OrdRejReason => 103,
            Tags::IOIQualifier => 104,
            Tags::WaveNo => 105,
            Tags::Issuer => 106,
            Tags::SecurityDesc => 107,
            Tags::HeartBtInt => 108,
            Tags::ClientID => 109,
            Tags::MinQty => 110,
            Tags::MaxFloor => 111,
            Tags::TestReqID => 112,
            Tags::ReportToExch => 113,
            Tags::LocateReqd => 114,
            Tags::OnBehalfOfCompID => 115,
            Tags::OnBehalfOfSubID => 116,
            Tags::QuoteID => 117,
            Tags::NetMoney => 118,
            Tags::SettlCurrAmt => 119,
            Tags::SettlCurrency => 120,
            Tags::ForexReq => 121,
            Tags::OrigSendingTime => 122,
            Tags::GapFillFlag => 123,
            Tags::NoExecs => 124,
            Tags::CxlType => 125,
            Tags::ExpireTime => 126,
            Tags::DKReason => 127,
            Tags::DeliverToCompID => 128,
            Tags::DeliverToSubID => 129,
            Tags::IOINaturalFlag => 130,
            Tags::QuoteReqID => 131,
            Tags::BidPx => 132,
            Tags::OfferPx => 133,
            Tags::BidSize => 134,
            Tags::OfferSize => 135,
            Tags::NoMiscFees => 136,
            Tags::MiscFeeAmt => 137,
            Tags::MiscFeeCurr => 138,
            Tags::MiscFeeType => 139,
            Tags::PrevClosePx => 140,
            Tags::ResetSeqNumFlag => 141,
            Tags::SenderLocationID => 142,
            Tags::TargetLocationID => 143,
            Tags::OnBehalfOfLocationID => 144,
            Tags::DeliverToLocationID => 145,
            Tags::NoRelatedSym => 146,
            Tags::Subject => 147,
            Tags::Headline => 148,
            Tags::URLLink => 149,
            Tags::ExecType => 150,
            Tags::LeavesQty => 151,
            Tags::CashOrderQty => 152,
            Tags::AllocAvgPx => 153,
            Tags::AllocNetMoney => 154,
            Tags::SettlCurrFxRate => 155,
            Tags::SettlCurrFxRateCalc => 156,
            Tags::NumDaysInterest => 157,
            Tags::AccruedInterestRate => 158,
            Tags::AccruedInterestAmt => 159,
            Tags::SettlInstMode => 160,
            Tags::AllocText => 161,
            Tags::SettlInstID => 162,
            Tags::SettlInstTransType => 163,
            Tags::EmailThreadID => 164,
            Tags::SettlInstSource => 165,
            Tags::SettlLocation => 166,
            Tags::SecurityType => 167,
            Tags::EffectiveTime => 168,
            Tags::StandInstDbType => 169,
            Tags::StandInstDbName => 170,
            Tags::StandInstDbID => 171,
            Tags::SettlDeliveryType => 172,
            Tags::SettlDepositoryCode => 173,
            Tags::SettlBrkrCode => 174,
            Tags::SettlInstCode => 175,
            Tags::SecuritySettlAgentName => 176,
            Tags::SecuritySettlAgentCode => 177,
            Tags::SecuritySettlAgentAcctNum => 178,
            Tags::SecuritySettlAgentAcctName => 179,
            Tags::SecuritySettlAgentContactName => 180,
            Tags::SecuritySettlAgentContactPhone => 181,
            Tags::CashSettlAgentName => 182,
            Tags::CashSettlAgentCode => 183,
            Tags::CashSettlAgentAcctNum => 184,
            Tags::CashSettlAgentAcctName => 185,
            Tags::CashSettlAgentContactName => 186,
            Tags::CashSettlAgentContactPhone => 187,
            Tags::BidSpotRate => 188,
            Tags::BidForwardPoints => 189,
            Tags::OfferSpotRate => 190,
            Tags::OfferForwardPoints => 191,
            Tags::OrderQty2 => 192,
            Tags::FutSettDate2 => 193,
            Tags::LastSpotRate => 194,
            Tags::LastForwardPoints => 195,
            Tags::AllocLinkID => 196,
            Tags::AllocLinkType => 197,
            Tags::SecondaryOrderID => 198,
            Tags::NoIOIQualifiers => 199,
            Tags::MaturityMonthYear => 200,
            Tags::PutOrCall => 201,
            Tags::StrikePrice => 202,
            Tags::CoveredOrUncovered => 203,
            Tags::CustomerOrFirm => 204,
            Tags::MaturityDay => 205,
            Tags::OptAttribute => 206,
            Tags::SecurityExchange => 207,
            Tags::NotifyBrokerOfCredit => 208,
            Tags::AllocHandlInst => 209,
            Tags::MaxShow => 210,
            Tags::PegDifference => 211,
            Tags::XmlDataLen => 212,
            Tags::XmlData => 213,
            Tags::SettlInstRefID => 214,
            Tags::NoRoutingIDs => 215,
            Tags::RoutingType => 216,
            Tags::RoutingID => 217,
            Tags::SpreadToBenchmark => 218,
            Tags::Benchmark => 219,
            Tags::CouponRate => 223,
            Tags::ContractMultiplier => 231,
            Tags::MDReqID => 262,
            Tags::SubscriptionRequestType => 263,
            Tags::MarketDepth => 264,
            Tags::MDUpdateType => 265,
            Tags::AggregatedBook => 266,
            Tags::NoMDEntryTypes => 267,
            Tags::NoMDEntries => 268,
            Tags::MDEntryType => 269,
            Tags::MDEntryPx => 270,
            Tags::MDEntrySize => 271,
            Tags::MDEntryDate => 272,
            Tags::MDEntryTime => 273,
            Tags::TickDirection => 274,
            Tags::MDMkt => 275,
            Tags::QuoteCondition => 276,
            Tags::TradeCondition => 277,
            Tags::MDEntryID => 278,
            Tags::MDUpdateAction => 279,
            Tags::MDEntryRefID => 280,
            Tags::MDReqRejReason => 281,
            Tags::MDEntryOriginator => 282,
            Tags::LocationID => 283,
            Tags::DeskID => 284,
            Tags::DeleteReason => 285,
            Tags::OpenCloseSettleFlag => 286,
            Tags::SellerDays => 287,
            Tags::MDEntryBuyer => 288,
            Tags::MDEntrySeller => 289,
            Tags::MDEntryPositionNo => 290,
            Tags::FinancialStatus => 291,
            Tags::CorporateAction => 292,
            Tags::DefBidSize => 293,
            Tags::DefOfferSize => 294,
            Tags::NoQuoteEntries => 295,
            Tags::NoQuoteSets => 296,
            Tags::QuoteAckStatus => 297,
            Tags::QuoteCancelType => 298,
            Tags::QuoteEntryID => 299,
            Tags::QuoteRejectReason => 300,
            Tags::QuoteResponseLevel => 301,
            Tags::QuoteSetID => 302,
            Tags::QuoteRequestType => 303,
            Tags::TotQuoteEntries => 304,
            Tags::UnderlyingIDSource => 305,
            Tags::UnderlyingIssuer => 306,
            Tags::UnderlyingSecurityDesc => 307,
            Tags::UnderlyingSecurityExchange => 308,
            Tags::UnderlyingSecurityID => 309,
            Tags::UnderlyingSecurityType => 310,
            Tags::UnderlyingSymbol => 311,
            Tags::UnderlyingSymbolSfx => 312,
            Tags::UnderlyingMaturityMonthYear => 313,
            Tags::UnderlyingMaturityDay => 314,
            Tags::UnderlyingPutOrCall => 315,
            Tags::UnderlyingStrikePrice => 316,
            Tags::UnderlyingOptAttribute => 317,
            Tags::UnderlyingCurrency => 318,
            Tags::RatioQty => 319,
            Tags::SecurityReqID => 320,
            Tags::SecurityRequestType => 321,
            Tags::SecurityResponseID => 322,
            Tags::SecurityResponseType => 323,
            Tags::SecurityStatusReqID => 324,
            Tags::UnsolicitedIndicator => 325,
            Tags::SecurityTradingStatus => 326,
            Tags::HaltReasonChar => 327,
            Tags::InViewOfCommon => 328,
            Tags::DueToRelated => 329,
            Tags::BuyVolume => 330,
            Tags::SellVolume => 331,
            Tags::HighPx => 332,
            Tags::LowPx => 333,
            Tags::Adjustment => 334,
            Tags::TradSesReqID => 335,
            Tags::TradingSessionID => 336,
            Tags::ContraTrader => 337,
            Tags::TradSesMethod => 338,
            Tags::TradSesMode => 339,
            Tags::TradSesStatus => 340,
            Tags::TradSesStartTime => 341,
            Tags::TradSesOpenTime => 342,
            Tags::TradSesPreCloseTime => 343,
            Tags::TradSesCloseTime => 344,
            Tags::TradSesEndTime => 345,
            Tags::NumberOfOrders => 346,
            Tags::MessageEncoding => 347,
            Tags::EncodedIssuerLen => 348,
            Tags::EncodedIssuer => 349,
            Tags::EncodedSecurityDescLen => 350,
            Tags::EncodedSecurityDesc => 351,
            Tags::EncodedListExecInstLen => 352,
            Tags::EncodedListExecInst => 353,
            Tags::EncodedTextLen => 354,
            Tags::EncodedText => 355,
            Tags::EncodedSubjectLen => 356,
            Tags::EncodedSubject => 357,
            Tags::EncodedHeadlineLen => 358,
            Tags::EncodedHeadline => 359,
            Tags::EncodedAllocTextLen => 360,
            Tags::EncodedAllocText => 361,
            Tags::EncodedUnderlyingIssuerLen => 362,
            Tags::EncodedUnderlyingIssuer => 363,
            Tags::EncodedUnderlyingSecurityDescLen => 364,
            Tags::EncodedUnderlyingSecurityDesc => 365,
            Tags::AllocPrice => 366,
            Tags::QuoteSetValidUntilTime => 367,
            Tags::QuoteEntryRejectReason => 368,
            Tags::LastMsgSeqNumProcessed => 369,
            Tags::OnBehalfOfSendingTime => 370,
            Tags::RefTagID => 371,
            Tags::RefMsgType => 372,
            Tags::SessionRejectReason => 373,
            Tags::BidRequestTransType => 374,
            Tags::ContraBroker => 375,
            Tags::ComplianceID => 376,
            Tags::SolicitedFlag => 377,
            Tags::ExecRestatementReason => 378,
            Tags::BusinessRejectRefID => 379,
            Tags::BusinessRejectReason => 380,
            Tags::GrossTradeAmt => 381,
            Tags::NoContraBrokers => 382,
            Tags::MaxMessageSize => 383,
            Tags::NoMsgTypes => 384,
            Tags::MsgDirection => 385,
            Tags::NoTradingSessions => 386,
            Tags::TotalVolumeTraded => 387,
            Tags::DiscretionInst => 388,
            Tags::DiscretionOffset => 389,
            Tags::BidID => 390,
            Tags::ClientBidID => 391,
            Tags::ListName => 392,
            Tags::TotalNumSecurities => 393,
            Tags::BidType => 394,
            Tags::NumTickets => 395,
            Tags::SideValue1 => 396,
            Tags::SideValue2 => 397,
            Tags::NoBidDescriptors => 398,
            Tags::BidDescriptorType => 399,
            Tags::BidDescriptor => 400,
            Tags::SideValueInd => 401,
            Tags::LiquidityPctLow => 402,
            Tags::LiquidityPctHigh => 403,
            Tags::LiquidityValue => 404,
            Tags::EFPTrackingError => 405,
            Tags::FairValue => 406,
            Tags::OutsideIndexPct => 407,
            Tags::ValueOfFutures => 408,
            Tags::LiquidityIndType => 409,
            Tags::WtAverageLiquidity => 410,
            Tags::ExchangeForPhysical => 411,
            Tags::OutMainCntryUIndex => 412,
            Tags::CrossPercent => 413,
            Tags::ProgRptReqs => 414,
            Tags::ProgPeriodInterval => 415,
            Tags::IncTaxInd => 416,
            Tags::NumBidders => 417,
            Tags::TradeType => 418,
            Tags::BasisPxType => 419,
            Tags::NoBidComponents => 420,
            Tags::Country => 421,
            Tags::TotNoStrikes => 422,
            Tags::PriceType => 423,
            Tags::DayOrderQty => 424,
            Tags::DayCumQty => 425,
            Tags::DayAvgPx => 426,
            Tags::GTBookingInst => 427,
            Tags::NoStrikes => 428,
            Tags::ListStatusType => 429,
            Tags::NetGrossInd => 430,
            Tags::ListOrderStatus => 431,
            Tags::ExpireDate => 432,
            Tags::ListExecInstType => 433,
            Tags::CxlRejResponseTo => 434,
            Tags::UnderlyingCouponRate => 435,
            Tags::UnderlyingContractMultiplier => 436,
            Tags::ContraTradeQty => 437,
            Tags::ContraTradeTime => 438,
            Tags::ClearingFirm => 439,
            Tags::ClearingAccount => 440,
            Tags::LiquidityNumSecurities => 441,
            Tags::MultiLegReportingType => 442,
            Tags::StrikeTime => 443,
            Tags::ListStatusText => 444,
            Tags::EncodedListStatusTextLen => 445,
            Tags::EncodedListStatusText => 446,
        }
    }

    pub open spec fn spec_from(v: u32) -> Option<Tags> {
        match v {
            1 => Some(Tags::Account),
            2 => Some(Tags::AdvId),
            3 => Some(Tags::AdvRefID),
            4 => Some(Tags::AdvSide),
            5 => Some(Tags::AdvTransType),
            6 => Some(Tags::AvgPx),
            7 => Some(Tags::BeginSeqNo),
            8 => Some(Tags::BeginString),
            9 => Some(Tags::BodyLength),
            10 => Some(Tags::CheckSum),
            11 => Some(Tags::ClOrdID),
            12 => Some(Tags::Commission),
            13 => Some(Tags::CommType),
            14 => Some(Tags::CumQty),
            15 => Some(Tags::Currency),
            16 => Some(Tags::EndSeqNo),
            17 => Some(Tags::ExecID),
            18 => Some(Tags::ExecInst),
            19 => Some(Tags::ExecRefID),
            20 => Some(Tags::ExecTransType),
            21 => Some(Tags::HandlInst),
            22 => Some(Tags::IDSource),
            23 => Some(Tags::IOIid),
            24 => Some(Tags::IOIOthSvc),
            25 => Some(Tags::IOIQltyInd),
            26 => Some(Tags::IOIRefID),
            27 => Some(Tags::IOIShares),
            28 => Some(Tags::IOITransType),
            29 => Some(Tags::LastCapacity),
            30 => Some(Tags::LastMkt),
            31 => Some(Tags::LastPx),
            32 => Some(Tags::LastShares),
            33 => Some(Tags::LinesOfText),
            34 => Some(Tags::MsgSeqNum),
            35 => Some(Tags::MsgType),
            36 => Some(Tags::NewSeqNo),
            37 => Some(Tags::OrderID),
            38 => Some(Tags::OrderQty),
            39 => Some(Tags::OrdStatus),
            40 => Some(Tags::OrdType),
            41 => Some(Tags::OrigClOrdID),
            42 => Some(Tags::OrigTime),
            43 => Some(Tags::PossDupFlag),
            44 => Some(Tags::Price),
            45 => Some(Tags::RefSeqNum),
            46 => Some(Tags::RelatdSym),
            47 => Some(Tags::Rule80A),
            48 => Some(Tags::SecurityID),
            49 => Some(Tags::SenderCompID),
            50 => Some(Tags::SenderSubID),
            51 => Some(Tags::SendingDate),
            52 => Some(Tags::SendingTime),
            53 => Some(Tags::Shares),
            54 => Some(Tags::Side),
            55 => Some(Tags::Symbol),
            56 => Some(Tags::TargetCompID),
            57 => Some(Tags::TargetSubID),
            58 => Some(Tags::Text),
            59 => Some(Tags::TimeInForce),
            60 => Some(Tags::TransactTime),
            61 => Some(Tags::Urgency),
            62 => Some(Tags::ValidUntilTime),
            63 => Some(Tags::SettlmntTyp),
            64 => Some(Tags::FutSettDate),
            65 => Some(Tags::SymbolSfx),
            66 => Some(Tags::ListID),
            67 => Some(Tags::ListSeqNo),
            68 => Some(Tags::TotNoOrders),
            69 => Some(Tags::ListExecInst),
            70 => Some(Tags::AllocID),
            71 => Some(Tags::AllocTransType),
            72 => Some(Tags::RefAllocID),
            73 => Some(Tags::NoOrders),
            74 => Some(Tags::AvgPrxPrecision),
            75 => Some(Tags::TradeDate),
            76 => Some(Tags::ExecBroker),
            77 => Some(Tags::OpenClose),
            78 => Some(Tags::NoAllocs),
            79 => Some(Tags::AllocAccount),
            80 => Some(Tags::AllocShares),
            81 => Some(Tags::ProcessCode),
            82 => Some(Tags::NoRpts),
            83 => Some(Tags::RptSeq),
            84 => Some(Tags::CxlQty),
            85 => Some(Tags::NoDlvyInst),
            86 => Some(Tags::DlvyInst),
            87 => Some(Tags::AllocStatus),
            88 => Some(Tags::AllocRejCode),
            89 => Some(Tags::Signature),
            90 => Some(Tags::SecureDataLen),
            91 => Some(Tags::SecureData),
            92 => Some(Tags::BrokerOfCredit),
            93 => Some(Tags::SignatureLength),
            94 => Some(Tags::EmailType),
            95 => Some(Tags::RawDataLength),
            96 => Some(Tags::RawData),
            97 => Some(Tags::PossResend),
            98 => Some(Tags::EncryptMethod),
            99 => Some(Tags::StopPx),
            100 => Some(Tags::ExDestination),
            102 => Some(Tags::CxlRejReason),
            103 => Some(Tags::OrdRejReason),
            104 => Some(Tags::IOIQualifier),
            105 => Some(Tags::WaveNo),
            106 => Some(Tags::Issuer),
            107 => Some(Tags::SecurityDesc),
            108 => Some(Tags::HeartBtInt),
            109 => Some(Tags::ClientID),
            110 => Some(Tags::MinQty),
            111 => Some(Tags::MaxFloor),
            112 => Some(Tags::TestReqID),
            113 => Some(Tags::ReportToExch),
            114 => Some(Tags::LocateReqd),
            115 => Some(Tags::OnBehalfOfCompID),
            116 => Some(Tags::OnBehalfOfSubID),
            117 => Some(Tags::QuoteID),
            118 => Some(Tags::NetMoney),
            119 => Some(Tags::SettlCurrAmt),
            120 => Some(Tags::SettlCurrency),
            121 => Some(Tags::ForexReq),
            122 => Some(Tags::OrigSendingTime),
            123 => Some(Tags::GapFillFlag),
            124 => Some(Tags::NoExecs),
            125 => Some(Tags::CxlType),
            126 => Some(Tags::ExpireTime),
            127 => Some(Tags::DKReason),
            128 => Some(Tags::DeliverToCompID),
            129 => Some(Tags::DeliverToSubID),
            130 => Some(Tags::IOINaturalFlag),
            131 => Some(Tags::QuoteReqID),
            132 => Some(Tags::BidPx),
            133 => Some(Tags::OfferPx),
            134 => Some(Tags::BidSize),
            135 => Some(Tags::OfferSize),
            136 => Some(Tags::NoMiscFees),
            137 => Some(Tags::MiscFeeAmt),
            138 => Some(Tags::MiscFeeCurr),
            139 => Some(Tags::MiscFeeType),
            140 => Some(Tags::PrevClosePx),
            141 => Some(Tags::ResetSeqNumFlag),
            142 => Some(Tags::SenderLocationID),
            143 => Some(Tags::TargetLocationID),
            144 => Some(Tags::OnBehalfOfLocationID),
            145 => Some(Tags::DeliverToLocationID),
            146 => Some(Tags::NoRelatedSym),
            147 => Some(Tags::Subject),
            148 => Some(Tags::Headline),
            149 => Some(Tags::URLLink),
            150 => Some(Tags::ExecType),
            151 => Some(Tags::LeavesQty),
            152 => Some(Tags::CashOrderQty),
            153 => Some(Tags::AllocAvgPx),
            154 => Some(Tags::AllocNetMoney),
            155 => Some(Tags::SettlCurrFxRate),
            156 => Some(Tags::SettlCurrFxRateCalc),
            157 => Some(Tags::NumDaysInterest),
            158 => Some(Tags::AccruedInterestRate),
            159 => Some(Tags::AccruedInterestAmt),
            160 => Some(Tags::SettlInstMode),
            161 => Some(Tags::AllocText),
            162 => Some(Tags::SettlInstID),
            163 => Some(Tags::SettlInstTransType),
            164 => Some(Tags::EmailThreadID),
            165 => Some(Tags::SettlInstSource),
            166 => Some(Tags::SettlLocation),
            167 => Some(Tags::SecurityType),
            168 => Some(Tags::EffectiveTime),
            169 => Some(Tags::StandInstDbType),
            170 => Some(Tags::StandInstDbName),
            171 => Some(Tags::StandInstDbID),
            172 => Some(Tags::SettlDeliveryType),
            173 => Some(Tags::SettlDepositoryCode),
            174 => Some(Tags::SettlBrkrCode),
            175 => Some(Tags::SettlInstCode),
            176 => Some(Tags::SecuritySettlAgentName),
            177 => Some(Tags::SecuritySettlAgentCode),
            178 => Some(Tags::SecuritySettlAgentAcctNum),
            179 => Some(Tags::SecuritySettlAgentAcctName),
            180 => Some(Tags::SecuritySettlAgentContactName),
            181 => Some(Tags::SecuritySettlAgentContactPhone),
            182 => Some(Tags::CashSettlAgentName),
            183 => Some(Tags::CashSettlAgentCode),
            184 => Some(Tags::CashSettlAgentAcctNum),
            185 => Some(Tags::CashSettlAgentAcctName),
            186 => Some(Tags::CashSettlAgentContactName),
            187 => Some(Tags::CashSettlAgentContactPhone),
            188 => Some(Tags::BidSpotRate),
            189 => Some(Tags::BidForwardPoints),
            190 => Some(Tags::OfferSpotRate),
            191 => Some(Tags::OfferForwardPoints),
            192 => Some(Tags::OrderQty2),
            193 => Some(Tags::FutSettDate2),
            194 => Some(Tags::LastSpotRate),
            195 => Some(Tags::LastForwardPoints),
            196 => Some(Tags::AllocLinkID),
            197 => Some(Tags::AllocLinkType),
            198 => Some(Tags::SecondaryOrderID),
            199 => Some(Tags::NoIOIQualifiers),
            200 => Some(Tags::MaturityMonthYear),
            201 => Some(Tags::PutOrCall),
            202 => Some(Tags::StrikePrice),
            203 => Some(Tags::CoveredOrUncovered),
            204 => Some(Tags::CustomerOrFirm),
            205 => Some(Tags::MaturityDay),
            206 => Some(Tags::OptAttribute),
            207 => Some(Tags::SecurityExchange),
            208 => Some(Tags::NotifyBrokerOfCredit),
            209 => Some(Tags::AllocHandlInst),
            210 => Some(Tags::MaxShow),
            211 => Some(Tags::PegDifference),
            212 => Some(Tags::XmlDataLen),
            213 => Some(Tags::XmlData),
            214 => Some(Tags::SettlInstRefID),
            215 => Some(Tags::NoRoutingIDs),
            216 => Some(Tags::RoutingType),
            217 => Some(Tags::RoutingID),
            218 => Some(Tags::SpreadToBenchmark),
            219 => Some(Tags::Benchmark),
            223 => Some(Tags::CouponRate),
            231 => Some(Tags::ContractMultiplier),
            262 => Some(Tags::MDReqID),
            263 => Some(Tags::SubscriptionRequestType),
            264 => Some(Tags::MarketDepth),
            265 => Some(Tags::MDUpdateType),
            266 => Some(Tags::AggregatedBook),
            267 => Some(Tags::NoMDEntryTypes),
            268 => Some(Tags::NoMDEntries),
            269 => Some(Tags::MDEntryType),
            270 => Some(Tags::MDEntryPx),
            271 => Some(Tags::MDEntrySize),
            272 => Some(Tags::MDEntryDate),
            273 => Some(Tags::MDEntryTime),
            274 => Some(Tags::TickDirection),
            275 => Some(Tags::MDMkt),
            276 => Some(Tags::QuoteCondition),
            277 => Some(Tags::TradeCondition),
            278 => Some(Tags::MDEntryID),
            279 => Some(Tags::MDUpdateAction),
            280 => Some(Tags::MDEntryRefID),
            281 => Some(Tags::MDReqRejReason),
            282 => Some(Tags::MDEntryOriginator),
            283 => Some(Tags::LocationID),
            284 => Some(Tags::DeskID),
            285 => Some(Tags::DeleteReason),
            286 => Some(Tags::OpenCloseSettleFlag),
            287 => Some(Tags::SellerDays),
            288 => Some(Tags::MDEntryBuyer),
            289 => Some(Tags::MDEntrySeller),
            290 => Some(Tags::MDEntryPositionNo),
            291 => Some(Tags::FinancialStatus),
            292 => Some(Tags::CorporateAction),
            293 => Some(Tags::DefBidSize),
            294 => Some(Tags::DefOfferSize),
            295 => Some(Tags::NoQuoteEntries),
            296 => Some(Tags::NoQuoteSets),
            297 => Some(Tags::QuoteAckStatus),
            298 => Some(Tags::QuoteCancelType),
            299 => Some(Tags::QuoteEntryID),
            300 => Some(Tags::QuoteRejectReason),
            301 => Some(Tags::QuoteResponseLevel),
            302 => Some(Tags::QuoteSetID),
            303 => Some(Tags::QuoteRequestType),
            304 => Some(Tags::TotQuoteEntries),
            305 => Some(Tags::UnderlyingIDSource),
            306 => Some(Tags::UnderlyingIssuer),
            307 => Some(Tags::UnderlyingSecurityDesc),
            308 => Some(Tags::UnderlyingSecurityExchange),
            309 => Some(Tags::UnderlyingSecurityID),
            310 => Some(Tags::UnderlyingSecurityType),
            311 => Some(Tags::UnderlyingSymbol),
            312 => Some(Tags::UnderlyingSymbolSfx),
            313 => Some(Tags::UnderlyingMaturityMonthYear),
            314 => Some(Tags::UnderlyingMaturityDay),
            315 => Some(Tags::UnderlyingPutOrCall),
            316 => Some(Tags::UnderlyingStrikePrice),
            317 => Some(Tags::UnderlyingOptAttribute),
            318 => Some(Tags::UnderlyingCurrency),
            319 => Some(Tags::RatioQty),
            320 => Some(Tags::SecurityReqID),
            321 => Some(Tags::SecurityRequestType),
            322 => Some(Tags::SecurityResponseID),
            323 => Some(Tags::SecurityResponseType),
            324 => Some(Tags::SecurityStatusReqID),
            325 => Some(Tags::UnsolicitedIndicator),
            326 => Some(Tags::SecurityTradingStatus),
            327 => Some(Tags::HaltReasonChar),
            328 => Some(Tags::InViewOfCommon),
            329 => Some(Tags::DueToRelated),
            330 => Some(Tags::BuyVolume),
            331 => Some(Tags::SellVolume),
            332 => Some(Tags::HighPx),
            333 => Some(Tags::LowPx),
            334 => Some(Tags::Adjustment),
            335 => Some(Tags::TradSesReqID),
            336 => Some(Tags::TradingSessionID),
            337 => Some(Tags::ContraTrader),
            338 => Some(Tags::TradSesMethod),
            339 => Some(Tags::TradSesMode),
            340 => Some(Tags::TradSesStatus),
            341 => Some(Tags::TradSesStartTime),
            342 => Some(Tags::TradSesOpenTime),
            343 => Some(Tags::TradSesPreCloseTime),
            344 => Some(Tags::TradSesCloseTime),
            345 => Some(Tags::TradSesEndTime),
            346 => Some(Tags::NumberOfOrders),
            347 => Some(Tags::MessageEncoding),
            348 => Some(Tags::EncodedIssuerLen),
            349 => Some(Tags::EncodedIssuer),
            350 => Some(Tags::EncodedSecurityDescLen),
            351 => Some(Tags::EncodedSecurityDesc),
            352 => Some(Tags::EncodedListExecInstLen),
            353 => Some(Tags::EncodedListExecInst),
            354 => Some(Tags::EncodedTextLen),
            355 => Some(Tags::EncodedText),
            356 => Some(Tags::EncodedSubjectLen),
            357 => Some(Tags::EncodedSubject),
            358 => Some(Tags::EncodedHeadlineLen),
            359 => Some(Tags::EncodedHeadline),
            360 => Some(Tags::EncodedAllocTextLen),
            361 => Some(Tags::EncodedAllocText),
            362 => Some(Tags::EncodedUnderlyingIssuerLen),
            363 => Some(Tags::EncodedUnderlyingIssuer),
            364 => Some(Tags::EncodedUnderlyingSecurityDescLen),
            365 => Some(Tags::EncodedUnderlyingSecurityDesc),
            366 => Some(Tags::AllocPrice),
            367 => Some(Tags::QuoteSetValidUntilTime),
            368 => Some(Tags::QuoteEntryRejectReason),
            369 => Some(Tags::LastMsgSeqNumProcessed),
            370 => Some(Tags::OnBehalfOfSendingTime),
            371 => Some(Tags::RefTagID),
            372 => Some(Tags::RefMsgType),
            373 => Some(Tags::SessionRejectReason),
            374 => Some(Tags::BidRequestTransType),
            375 => Some(Tags::ContraBroker),
            376 => Some(Tags::ComplianceID),
            377 => Some(Tags::SolicitedFlag),
            378 => Some(Tags::ExecRestatementReason),
            379 => Some(Tags::BusinessRejectRefID),
            380 => Some(Tags::BusinessRejectReason),
            381 => Some(Tags::GrossTradeAmt),
            382 => Some(Tags::NoContraBrokers),
            383 => Some(Tags::MaxMessageSize),
            384 => Some(Tags::NoMsgTypes),
            385 => Some(Tags::MsgDirection),
            386 => Some(Tags::NoTradingSessions),
            387 => Some(Tags::TotalVolumeTraded),
            388 => Some(Tags::DiscretionInst),
            389 => Some(Tags::DiscretionOffset),
            390 => Some(Tags::BidID),
            391 => Some(Tags::ClientBidID),
            392 => Some(Tags::ListName),
            393 => Some(Tags::TotalNumSecurities),
            394 => Some(Tags::BidType),
            395 => Some(Tags::NumTickets),
            396 => Some(Tags::SideValue1),
            397 => Some(Tags::SideValue2),
            398 => Some(Tags::NoBidDescriptors),
            399 => Some(Tags::BidDescriptorType),
            400 => Some(Tags::BidDescriptor),
            401 => Some(Tags::SideValueInd),
            402 => Some(Tags::LiquidityPctLow),
            403 => Some(Tags::LiquidityPctHigh),
            404 => Some(Tags::LiquidityValue),
            405 => Some(Tags::EFPTrackingError),
            406 => Some(Tags::FairValue),
            407 => Some(Tags::OutsideIndexPct),
            408 => Some(Tags::ValueOfFutures),
            409 => Some(Tags::LiquidityIndType),
            410 => Some(Tags::WtAverageLiquidity),
            411 => Some(Tags::ExchangeForPhysical),
            412 => Some(Tags::OutMainCntryUIndex),
            413 => Some(Tags::CrossPercent),
            414 => Some(Tags::ProgRptReqs),
            415 => Some(Tags::ProgPeriodInterval),
            416 => Some(Tags::IncTaxInd),
            417 => Some(Tags::NumBidders),
            418 => Some(Tags::TradeType),
            419 => Some(Tags::BasisPxType),
            420 => Some(Tags::NoBidComponents),
            421 => Some(Tags::Country),
            422 => Some(Tags::TotNoStrikes),
            423 => Some(Tags::PriceType),
            424 => Some(Tags::DayOrderQty),
            425 => Some(Tags::DayCumQty),
            426 => Some(Tags::DayAvgPx),
            427 => Some(Tags::GTBookingInst),
            428 => Some(Tags::NoStrikes),
            429 => Some(Tags::ListStatusType),
            430 => Some(Tags::NetGrossInd),
            431 => Some(Tags::ListOrderStatus),
            432 => Some(Tags::ExpireDate),
            433 => Some(Tags::ListExecInstType),
            434 => Some(Tags::CxlRejResponseTo),
            435 => Some(Tags::UnderlyingCouponRate),
            436 => Some(Tags::UnderlyingContractMultiplier),
            437 => Some(Tags::ContraTradeQty),
            438 => Some(Tags::ContraTradeTime),
            439 => Some(Tags::ClearingFirm),
            440 => Some(Tags::ClearingAccount),
            441 => Some(Tags::LiquidityNumSecurities),
            442 => Some(Tags::MultiLegReportingType),
            443 => Some(Tags::StrikeTime),
            444 => Some(Tags::ListStatusText),
            445 => Some(Tags::EncodedListStatusTextLen),
            446 => Some(Tags::EncodedListStatusText),
            _ => None,
        }
    }

    pub open spec fn spec_decode(u: u32) -> Result<Tags, DecodeError> {
        match Tags::spec_from(u) {
            Some(x) => Ok(x),
            None => Err(DecodeError::UnknownTag(u)),
        }
    }

    pub fn as_u32(&self) -> (r: u32)
        ensures
            r == self.spec_num(),
    {
        match self {
            Tags::Account => 1,
            Tags::AdvId => 2,
            Tags::AdvRefID => 3,
            Tags::AdvSide => 4,
            Tags::AdvTransType => 5,
            Tags::AvgPx => 6,
            Tags::BeginSeqNo => 7,
            Tags::BeginString => 8,
            Tags::BodyLength => 9,
            Tags::CheckSum => 10,
            Tags::ClOrdID => 11,
            Tags::Commission => 12,
            Tags::CommType => 13,
            Tags::CumQty => 14,
            Tags::Currency => 15,
            Tags::EndSeqNo => 16,
            Tags::ExecID => 17,
            Tags::ExecInst => 18,
            Tags::ExecRefID => 19,
            Tags::ExecTransType => 20,
            Tags::HandlInst => 21,
            Tags::IDSource => 22,
            Tags::IOIid => 23,
            Tags::IOIOthSvc => 24,
            Tags::IOIQltyInd => 25,
            Tags::IOIRefID => 26,
            Tags::IOIShares => 27,
            Tags::IOITransType => 28,
            Tags::LastCapacity => 29,
            Tags::LastMkt => 30,
            Tags::LastPx => 31,
            Tags::LastShares => 32,
            Tags::LinesOfText => 33,
            Tags::MsgSeqNum => 34,
            Tags::MsgType => 35,
            Tags::NewSeqNo => 36,
            Tags::OrderID => 37,
            Tags::OrderQty => 38,
            Tags::OrdStatus => 39,
            Tags::OrdType => 40,
            Tags::OrigClOrdID => 41,
            Tags::OrigTime => 42,
            Tags::PossDupFlag => 43,
            Tags::Price => 44,
            Tags::RefSeqNum => 45,
            Tags::RelatdSym => 46,
            Tags::Rule80A => 47,
            Tags::SecurityID => 48,
            Tags::SenderCompID => 49,
            Tags::SenderSubID => 50,
            Tags::SendingDate => 51,
            Tags::SendingTime => 52,
            Tags::Shares => 53,
            Tags::Side => 54,
            Tags::Symbol => 55,
            Tags::TargetCompID => 56,
            Tags::TargetSubID => 57,
            Tags::Text => 58,
            Tags::TimeInForce => 59,
            Tags::TransactTime => 60,
            Tags::Urgency => 61,
            Tags::ValidUntilTime => 62,
            Tags::SettlmntTyp => 63,
            Tags::FutSettDate => 64,
            Tags::SymbolSfx => 65,
            Tags::ListID => 66,
            Tags::ListSeqNo => 67,
            Tags::TotNoOrders => 68,
            Tags::ListExecInst => 69,
            Tags::AllocID => 70,
            Tags::AllocTransType => 71,
            Tags::RefAllocID => 72,
            Tags::NoOrders => 73,
            Tags::AvgPrxPrecision => 74,
            Tags::TradeDate => 75,
            Tags::ExecBroker => 76,
            Tags::OpenClose => 77,
            Tags::NoAllocs => 78,
            Tags::AllocAccount => 79,
            Tags::AllocShares => 80,
            Tags::ProcessCode => 81,
            Tags::NoRpts => 82,
            Tags::RptSeq => 83,
            Tags::CxlQty => 84,
            Tags::NoDlvyInst => 85,
            Tags::DlvyInst => 86,
            Tags::AllocStatus => 87,
            Tags::AllocRejCode => 88,
            Tags::Signature => 89,
            Tags::SecureDataLen => 90,
            Tags::SecureData => 91,
            Tags::BrokerOfCredit => 92,
            Tags::SignatureLength => 93,
            Tags::EmailType => 94,
            Tags::RawDataLength => 95,
            Tags::RawData => 96,
            Tags::PossResend => 97,
            Tags::EncryptMethod => 98,
            Tags::StopPx => 99,
            Tags::ExDestination => 100,
            Tags::CxlRejReason => 102,
            Tags::OrdRejReason => 103,
            Tags::IOIQualifier => 104,
            Tags::WaveNo => 105,
            Tags::Issuer => 106,
            Tags::SecurityDesc => 107,
            Tags::HeartBtInt => 108,
            Tags::ClientID => 109,
            Tags::MinQty => 110,
            Tags::MaxFloor => 111,
            Tags::TestReqID => 112,
            Tags::ReportToExch => 113,
            Tags::LocateReqd => 114,
            Tags::OnBehalfOfCompID => 115,
            Tags::OnBehalfOfSubID => 116,
            Tags::QuoteID => 117,
            Tags::NetMoney => 118,
            Tags::SettlCurrAmt => 119,
            Tags::SettlCurrency => 120,
            Tags::ForexReq => 121,
            Tags::OrigSendingTime => 122,
            Tags::GapFillFlag => 123,
            Tags::NoExecs => 124,
            Tags::CxlType => 125,
            Tags::ExpireTime => 126,
            Tags::DKReason => 127,
            Tags::DeliverToCompID => 128,
            Tags::DeliverToSubID => 129,
            Tags::IOINaturalFlag => 130,
            Tags::QuoteReqID => 131,
            Tags::BidPx => 132,
            Tags::OfferPx => 133,
            Tags::BidSize => 134,
            Tags::OfferSize => 135,
            Tags::NoMiscFees => 136,
            Tags::MiscFeeAmt => 137,
            Tags::MiscFeeCurr => 138,
            Tags::MiscFeeType => 139,
            Tags::PrevClosePx => 140,
            Tags::ResetSeqNumFlag => 141,
            Tags::SenderLocationID => 142,
            Tags::TargetLocationID => 143,
            Tags::OnBehalfOfLocationID => 144,
            Tags::DeliverToLocationID => 145,
            Tags::NoRelatedSym => 146,
            Tags::Subject => 147,
            Tags::Headline => 148,
            Tags::URLLink => 149,
            Tags::ExecType => 150,
            Tags::LeavesQty => 151,
            Tags::CashOrderQty => 152,
            Tags::AllocAvgPx => 153,
            Tags::AllocNetMoney => 154,
            Tags::SettlCurrFxRate => 155,
            Tags::SettlCurrFxRateCalc => 156,
            Tags::NumDaysInterest => 157,
            Tags::AccruedInterestRate => 158,
            Tags::AccruedInterestAmt => 159,
            Tags::SettlInstMode => 160,
            Tags::AllocText => 161,
            Tags::SettlInstID => 162,
            Tags::SettlInstTransType => 163,
            Tags::EmailThreadID => 164,
            Tags::SettlInstSource => 165,
            Tags::SettlLocation => 166,
            Tags::SecurityType => 167,
            Tags::EffectiveTime => 168,
            Tags::StandInstDbType => 169,
            Tags::StandInstDbName => 170,
            Tags::StandInstDbID => 171,
            Tags::SettlDeliveryType => 172,
            Tags::SettlDepositoryCode => 173,
            Tags::SettlBrkrCode => 174,
            Tags::SettlInstCode => 175,
            Tags::SecuritySettlAgentName => 176,
            Tags::SecuritySettlAgentCode => 177,
            Tags::SecuritySettlAgentAcctNum => 178,
            Tags::SecuritySettlAgentAcctName => 179,
            Tags::SecuritySettlAgentContactName => 180,
            Tags::SecuritySettlAgentContactPhone => 181,
            Tags::CashSettlAgentName => 182,
            Tags::CashSettlAgentCode => 183,
            Tags::CashSettlAgentAcctNum => 184,
            Tags::CashSettlAgentAcctName => 185,
            Tags::CashSettlAgentContactName => 186,
            Tags::CashSettlAgentContactPhone => 187,
            Tags::BidSpotRate => 188,
            Tags::BidForwardPoints => 189,
            Tags::OfferSpotRate => 190,
            Tags::OfferForwardPoints => 191,
            Tags::OrderQty2 => 192,
            Tags::FutSettDate2 => 193,
            Tags::LastSpotRate => 194,
            Tags::LastForwardPoints => 195,
            Tags::AllocLinkID => 196,
            Tags::AllocLinkType => 197,
            Tags::SecondaryOrderID => 198,
            Tags::NoIOIQualifiers => 199,
            Tags::MaturityMonthYear => 200,
            Tags::PutOrCall => 201,
            Tags::StrikePrice => 202,
            Tags::CoveredOrUncovered => 203,
            Tags::CustomerOrFirm => 204,
            Tags::MaturityDay => 205,
            Tags::OptAttribute => 206,
            Tags::SecurityExchange => 207,
            Tags::NotifyBrokerOfCredit => 208,
            Tags::AllocHandlInst => 209,
            Tags::MaxShow => 210,
            Tags::PegDifference => 211,
            Tags::XmlDataLen => 212,
            Tags::XmlData => 213,
            Tags::SettlInstRefID => 214,
            Tags::NoRoutingIDs => 215,
            Tags::RoutingType => 216,
            Tags::RoutingID => 217,
            Tags::SpreadToBenchmark => 218,
            Tags::Benchmark => 219,
            Tags::CouponRate => 223,
            Tags::ContractMultiplier => 231,
            Tags::MDReqID => 262,
            Tags::SubscriptionRequestType => 263,
            Tags::MarketDepth => 264,
            Tags::MDUpdateType => 265,
            Tags::AggregatedBook => 266,
            Tags::NoMDEntryTypes => 267,
            Tags::NoMDEntries => 268,
            Tags::MDEntryType => 269,
            Tags::MDEntryPx => 270,
            Tags::MDEntrySize => 271,
            Tags::MDEntryDate => 272,
            Tags::MDEntryTime => 273,
            Tags::TickDirection => 274,
            Tags::MDMkt => 275,
            Tags::QuoteCondition => 276,
            Tags::TradeCondition => 277,
            Tags::MDEntryID => 278,
            Tags::MDUpdateAction => 279,
            Tags::MDEntryRefID => 280,
            Tags::MDReqRejReason => 281,
            Tags::MDEntryOriginator => 282,
            Tags::LocationID => 283,
            Tags::DeskID => 284,
            Tags::DeleteReason => 285,
            Tags::OpenCloseSettleFlag => 286,
            Tags::SellerDays => 287,
            Tags::MDEntryBuyer => 288,
            Tags::MDEntrySeller => 289,
            Tags::MDEntryPositionNo => 290,
            Tags::FinancialStatus => 291,
            Tags::CorporateAction => 292,
            Tags::DefBidSize => 293,
            Tags::DefOfferSize => 294,
            Tags::NoQuoteEntries => 295,
            Tags::NoQuoteSets => 296,
            Tags::QuoteAckStatus => 297,
            Tags::QuoteCancelType => 298,
            Tags::QuoteEntryID => 299,
            Tags::QuoteRejectReason => 300,
            Tags::QuoteResponseLevel => 301,
            Tags::QuoteSetID => 302,
            Tags::QuoteRequestType => 303,
            Tags::TotQuoteEntries => 304,
            Tags::UnderlyingIDSource => 305,
            Tags::UnderlyingIssuer => 306,
            Tags::UnderlyingSecurityDesc => 307,
            Tags::UnderlyingSecurityExchange => 308,
            Tags::UnderlyingSecurityID => 309,
            Tags::UnderlyingSecurityType => 310,
            Tags::UnderlyingSymbol => 311,
            Tags::UnderlyingSymbolSfx => 312,
            Tags::UnderlyingMaturityMonthYear => 313,
            Tags::UnderlyingMaturityDay => 314,
            Tags::UnderlyingPutOrCall => 315,
            Tags::UnderlyingStrikePrice => 316,
            Tags::UnderlyingOptAttribute => 317,
            Tags::UnderlyingCurrency => 318,
            Tags::RatioQty => 319,
            Tags::SecurityReqID => 320,
            Tags::SecurityRequestType => 321,
            Tags::SecurityResponseID => 322,
            Tags::SecurityResponseType => 323,
            Tags::SecurityStatusReqID => 324,
            Tags::UnsolicitedIndicator => 325,
            Tags::SecurityTradingStatus => 326,
            Tags::HaltReasonChar => 327,
            Tags::InViewOfCommon => 328,
            Tags::DueToRelated => 329,
            Tags::BuyVolume => 330,
            Tags::SellVolume => 331,
            Tags::HighPx => 332,
            Tags::LowPx => 333,
            Tags::Adjustment => 334,
            Tags::TradSesReqID => 335,
            Tags::TradingSessionID => 336,
            Tags::ContraTrader => 337,
            Tags::TradSesMethod => 338,
            Tags::TradSesMode => 339,
            Tags::TradSesStatus => 340,
            Tags::TradSesStartTime => 341,
            Tags::TradSesOpenTime => 342,
            Tags::TradSesPreCloseTime => 343,
            Tags::TradSesCloseTime => 344,
            Tags::TradSesEndTime => 345,
            Tags::NumberOfOrders => 346,
            Tags::MessageEncoding => 347,
            Tags::EncodedIssuerLen => 348,
            Tags::EncodedIssuer => 349,
            Tags::EncodedSecurityDescLen => 350,
            Tags::EncodedSecurityDesc => 351,
            Tags::EncodedListExecInstLen => 352,
            Tags::EncodedListExecInst => 353,
            Tags::EncodedTextLen => 354,
            Tags::EncodedText => 355,
            Tags::EncodedSubjectLen => 356,
            Tags::EncodedSubject => 357,
            Tags::EncodedHeadlineLen => 358,
            Tags::EncodedHeadline => 359,
            Tags::EncodedAllocTextLen => 360,
            Tags::EncodedAllocText => 361,
            Tags::EncodedUnderlyingIssuerLen => 362,
            Tags::EncodedUnderlyingIssuer => 363,
            Tags::EncodedUnderlyingSecurityDescLen => 364,
            Tags::EncodedUnderlyingSecurityDesc => 365,
            Tags::AllocPrice => 366,
            Tags::QuoteSetValidUntilTime => 367,
            Tags::QuoteEntryRejectReason => 368,
            Tags::LastMsgSeqNumProcessed => 369,
            Tags::OnBehalfOfSendingTime => 370,
            Tags::RefTagID => 371,
            Tags::RefMsgType => 372,
            Tags::SessionRejectReason => 373,
            Tags::BidRequestTransType => 374,
            Tags::ContraBroker => 375,
            Tags::ComplianceID => 376,
            Tags::SolicitedFlag => 377,
            Tags::ExecRestatementReason => 378,
            Tags::BusinessRejectRefID => 379,
            Tags::BusinessRejectReason => 380,
            Tags::GrossTradeAmt => 381,
            Tags::NoContraBrokers => 382,
            Tags::MaxMessageSize => 383,
            Tags::NoMsgTypes => 384,
            Tags::MsgDirection => 385,
            Tags::NoTradingSessions => 386,
            Tags::TotalVolumeTraded => 387,
            Tags::DiscretionInst => 388,
            Tags::DiscretionOffset => 389,
            Tags::BidID => 390,
            Tags::ClientBidID => 391,
            Tags::ListName => 392,
            Tags::TotalNumSecurities => 393,
            Tags::BidType => 394,
            Tags::NumTickets => 395,
            Tags::SideValue1 => 396,
            Tags::SideValue2 => 397,
            Tags::NoBidDescriptors => 398,
            Tags::BidDescriptorType => 399,
            Tags::BidDescriptor => 400,
            Tags::SideValueInd => 401,
            Tags::LiquidityPctLow => 402,
            Tags::LiquidityPctHigh => 403,
            Tags::LiquidityValue => 404,
            Tags::EFPTrackingError => 405,
            Tags::FairValue => 406,
            Tags::OutsideIndexPct => 407,
            Tags::ValueOfFutures => 408,
            Tags::LiquidityIndType => 409,
            Tags::WtAverageLiquidity => 410,
            Tags::ExchangeForPhysical => 411,
            Tags::OutMainCntryUIndex => 412,
            Tags::CrossPercent => 413,
            Tags::ProgRptReqs => 414,
            Tags::ProgPeriodInterval => 415,
            Tags::IncTaxInd => 416,
            Tags::NumBidders => 417,
            Tags::TradeType => 418,
            Tags::BasisPxType => 419,
            Tags::NoBidComponents => 420,
            Tags::Country => 421,
            Tags::TotNoStrikes => 422,
            Tags::PriceType => 423,
            Tags::DayOrderQty => 424,
            Tags::DayCumQty => 425,
            Tags::DayAvgPx => 426,
            Tags::GTBookingInst => 427,
            Tags::NoStrikes => 428,
            Tags::ListStatusType => 429,
            Tags::NetGrossInd => 430,
            Tags::ListOrderStatus => 431,
            Tags::ExpireDate => 432,
            Tags::ListExecInstType => 433,
            Tags::CxlRejResponseTo => 434,
            Tags::UnderlyingCouponRate => 435,
            Tags::UnderlyingContractMultiplier => 436,
            Tags::ContraTradeQty => 437,
            Tags::ContraTradeTime => 438,
            Tags::ClearingFirm => 439,
            Tags::ClearingAccount => 440,
            Tags::LiquidityNumSecurities => 441,
            Tags::MultiLegReportingType => 442,
            Tags::StrikeTime => 443,
            Tags::ListStatusText => 444,
            Tags::EncodedListStatusTextLen => 445,
            Tags::EncodedListStatusText => 446,
        }
    }

    pub fn from_u32(u: u32) -> (r: Result<Tags, DecodeError>)
        ensures
            r == Tags::spec_decode(u),
    {
        match u {
            1 => Ok(Tags::Account),
            2 => Ok(Tags::AdvId),
            3 => Ok(Tags::AdvRefID),
            4 => Ok(Tags::AdvSide),
            5 => Ok(Tags::AdvTransType),
            6 => Ok(Tags::AvgPx),
            7 => Ok(Tags::BeginSeqNo),
            8 => Ok(Tags::BeginString),
            9 => Ok(Tags::BodyLength),
            10 => Ok(Tags::CheckSum),
            11 => Ok(Tags::ClOrdID),
            12 => Ok(Tags::Commission),
            13 => Ok(Tags::CommType),
            14 => Ok(Tags::CumQty),
            15 => Ok(Tags::Currency),
            16 => Ok(Tags::EndSeqNo),
            17 => Ok(Tags::ExecID),
            18 => Ok(Tags::ExecInst),
            19 => Ok(Tags::ExecRefID),
            20 => Ok(Tags::ExecTransType),
            21 => Ok(Tags::HandlInst),
            22 => Ok(Tags::IDSource),
            23 => Ok(Tags::IOIid),
            24 => Ok(Tags::IOIOthSvc),
            25 => Ok(Tags::IOIQltyInd),
            26 => Ok(Tags::IOIRefID),
            27 => Ok(Tags::IOIShares),
            28 => Ok(Tags::IOITransType),
            29 => Ok(Tags::LastCapacity),
            30 => Ok(Tags::LastMkt),
            31 => Ok(Tags::LastPx),
            32 => Ok(Tags::LastShares),
            33 => Ok(Tags::LinesOfText),
            34 => Ok(Tags::MsgSeqNum),
            35 => Ok(Tags::MsgType),
            36 => Ok(Tags::NewSeqNo),
            37 => Ok(Tags::OrderID),
            38 => Ok(Tags::OrderQty),
            39 => Ok(Tags::OrdStatus),
            40 => Ok(Tags::OrdType),
            41 => Ok(Tags::OrigClOrdID),
            42 => Ok(Tags::OrigTime),
            43 => Ok(Tags::PossDupFlag),
            44 => Ok(Tags::Price),
            45 => Ok(Tags::RefSeqNum),
            46 => Ok(Tags::RelatdSym),
            47 => Ok(Tags::Rule80A),
            48 => Ok(Tags::SecurityID),
            49 => Ok(Tags::SenderCompID),
            50 => Ok(Tags::SenderSubID),
            51 => Ok(Tags::SendingDate),
            52 => Ok(Tags::SendingTime),
            53 => Ok(Tags::Shares),
            54 => Ok(Tags::Side),
            55 => Ok(Tags::Symbol),
            56 => Ok(Tags::TargetCompID),
            57 => Ok(Tags::TargetSubID),
            58 => Ok(Tags::Text),
            59 => Ok(Tags::TimeInForce),
            60 => Ok(Tags::TransactTime),
            61 => Ok(Tags::Urgency),
            62 => Ok(Tags::ValidUntilTime),
            63 => Ok(Tags::SettlmntTyp),
            64 => Ok(Tags::FutSettDate),
            65 => Ok(Tags::SymbolSfx),
            66 => Ok(Tags::ListID),
            67 => Ok(Tags::ListSeqNo),
            68 => Ok(Tags::TotNoOrders),
            69 => Ok(Tags::ListExecInst),
            70 => Ok(Tags::AllocID),
            71 => Ok(Tags::AllocTransType),
            72 => Ok(Tags::RefAllocID),
            73 => Ok(Tags::NoOrders),
            74 => Ok(Tags::AvgPrxPrecision),
            75 => Ok(Tags::TradeDate),
            76 => Ok(Tags::ExecBroker),
            77 => Ok(Tags::OpenClose),
            78 => Ok(Tags::NoAllocs),
            79 => Ok(Tags::AllocAccount),
            80 => Ok(Tags::AllocShares),
            81 => Ok(Tags::ProcessCode),
            82 => Ok(Tags::NoRpts),
            83 => Ok(Tags::RptSeq),
            84 => Ok(Tags::CxlQty),
            85 => Ok(Tags::NoDlvyInst),
            86 => Ok(Tags::DlvyInst),
            87 => Ok(Tags::AllocStatus),
            88 => Ok(Tags::AllocRejCode),
            89 => Ok(Tags::Signature),
            90 => Ok(Tags::SecureDataLen),
            91 => Ok(Tags::SecureData),
            92 => Ok(Tags::BrokerOfCredit),
            93 => Ok(Tags::SignatureLength),
            94 => Ok(Tags::EmailType),
            95 => Ok(Tags::RawDataLength),
            96 => Ok(Tags::RawData),
            97 => Ok(Tags::PossResend),
            98 => Ok(Tags::EncryptMethod),
            99 => Ok(Tags::StopPx),
            100 => Ok(Tags::ExDestination),
            102 => Ok(Tags::CxlRejReason),
            103 => Ok(Tags::OrdRejReason),
            104 => Ok(Tags::IOIQualifier),
            105 => Ok(Tags::WaveNo),
            106 => Ok(Tags::Issuer),
            107 => Ok(Tags::SecurityDesc),
            108 => Ok(Tags::HeartBtInt),
            109 => Ok(Tags::ClientID),
            110 => Ok(Tags::MinQty),
            111 => Ok(Tags::MaxFloor),
            112 => Ok(Tags::TestReqID),
            113 => Ok(Tags::ReportToExch),
            114 => Ok(Tags::LocateReqd),
            115 => Ok(Tags::OnBehalfOfCompID),
            116 => Ok(Tags::OnBehalfOfSubID),
            117 => Ok(Tags::QuoteID),
            118 => Ok(Tags::NetMoney),
            119 => Ok(Tags::SettlCurrAmt),
            120 => Ok(Tags::SettlCurrency),
            121 => Ok(Tags::ForexReq),
            122 => Ok(Tags::OrigSendingTime),
            123 => Ok(Tags::GapFillFlag),
            124 => Ok(Tags::NoExecs),
            125 => Ok(Tags::CxlType),
            126 => Ok(Tags::ExpireTime),
            127 => Ok(Tags::DKReason),
            128 => Ok(Tags::DeliverToCompID),
            129 => Ok(Tags::DeliverToSubID),
            130 => Ok(Tags::IOINaturalFlag),
            131 => Ok(Tags::QuoteReqID),
            132 => Ok(Tags::BidPx),
            133 => Ok(Tags::OfferPx),
            134 => Ok(Tags::BidSize),
            135 => Ok(Tags::OfferSize),
            136 => Ok(Tags::NoMiscFees),
            137 => Ok(Tags::MiscFeeAmt),
            138 => Ok(Tags::MiscFeeCurr),
            139 => Ok(Tags::MiscFeeType),
            140 => Ok(Tags::PrevClosePx),
            141 => Ok(Tags::ResetSeqNumFlag),
            142 => Ok(Tags::SenderLocationID),
            143 => Ok(Tags::TargetLocationID),
            144 => Ok(Tags::OnBehalfOfLocationID),
            145 => Ok(Tags::DeliverToLocationID),
            146 => Ok(Tags::NoRelatedSym),
            147 => Ok(Tags::Subject),
            148 => Ok(Tags::Headline),
            149 => Ok(Tags::URLLink),
            150 => Ok(Tags::ExecType),
            151 => Ok(Tags::LeavesQty),
            152 => Ok(Tags::CashOrderQty),
            153 => Ok(Tags::AllocAvgPx),
            154 => Ok(Tags::AllocNetMoney),
            155 => Ok(Tags::SettlCurrFxRate),
            156 => Ok(Tags::SettlCurrFxRateCalc),
            157 => Ok(Tags::NumDaysInterest),
            158 => Ok(Tags::AccruedInterestRate),
            159 => Ok(Tags::AccruedInterestAmt),
            160 => Ok(Tags::SettlInstMode),
            161 => Ok(Tags::AllocText),
            162 => Ok(Tags::SettlInstID),
            163 => Ok(Tags::SettlInstTransType),
            164 => Ok(Tags::EmailThreadID),
            165 => Ok(Tags::SettlInstSource),
            166 => Ok(Tags::SettlLocation),
            167 => Ok(Tags::SecurityType),
            168 => Ok(Tags::EffectiveTime),
            169 => Ok(Tags::StandInstDbType),
            170 => Ok(Tags::StandInstDbName),
            171 => Ok(Tags::StandInstDbID),
            172 => Ok(Tags::SettlDeliveryType),
            173 => Ok(Tags::SettlDepositoryCode),
            174 => Ok(Tags::SettlBrkrCode),
            175 => Ok(Tags::SettlInstCode),
            176 => Ok(Tags::SecuritySettlAgentName),
            177 => Ok(Tags::SecuritySettlAgentCode),
            178 => Ok(Tags::SecuritySettlAgentAcctNum),
            179 => Ok(Tags::SecuritySettlAgentAcctName),
            180 => Ok(Tags::SecuritySettlAgentContactName),
            181 => Ok(Tags::SecuritySettlAgentContactPhone),
            182 => Ok(Tags::CashSettlAgentName),
            183 => Ok(Tags::CashSettlAgentCode),
            184 => Ok(Tags::CashSettlAgentAcctNum),
            185 => Ok(Tags::CashSettlAgentAcctName),
            186 => Ok(Tags::CashSettlAgentContactName),
            187 => Ok(Tags::CashSettlAgentContactPhone),
            188 => Ok(Tags::BidSpotRate),
            189 => Ok(Tags::BidForwardPoints),
            190 => Ok(Tags::OfferSpotRate),
            191 => Ok(Tags::OfferForwardPoints),
            192 => Ok(Tags::OrderQty2),
            193 => Ok(Tags::FutSettDate2),
            194 => Ok(Tags::LastSpotRate),
            195 => Ok(Tags::LastForwardPoints),
            196 => Ok(Tags::AllocLinkID),
            197 => Ok(Tags::AllocLinkType),
            198 => Ok(Tags::SecondaryOrderID),
            199 => Ok(Tags::NoIOIQualifiers),
            200 => Ok(Tags::MaturityMonthYear),
            201 => Ok(Tags::PutOrCall),
            202 => Ok(Tags::StrikePrice),
            203 => Ok(Tags::CoveredOrUncovered),
            204 => Ok(Tags::CustomerOrFirm),
            205 => Ok(Tags::MaturityDay),
            206 => Ok(Tags::OptAttribute),
            207 => Ok(Tags::SecurityExchange),
            208 => Ok(Tags::NotifyBrokerOfCredit),
            209 => Ok(Tags::AllocHandlInst),
            210 => Ok(Tags::MaxShow),
            211 => Ok(Tags::PegDifference),
            212 => Ok(Tags::XmlDataLen),
            213 => Ok(Tags::XmlData),
            214 => Ok(Tags::SettlInstRefID),
            215 => Ok(Tags::NoRoutingIDs),
            216 => Ok(Tags::RoutingType),
            217 => Ok(Tags::RoutingID),
            218 => Ok(Tags::SpreadToBenchmark),
            219 => Ok(Tags::Benchmark),
            223 => Ok(Tags::CouponRate),
            231 => Ok(Tags::ContractMultiplier),
            262 => Ok(Tags::MDReqID),
            263 => Ok(Tags::SubscriptionRequestType),
            264 => Ok(Tags::MarketDepth),
            265 => Ok(Tags::MDUpdateType),
            266 => Ok(Tags::AggregatedBook),
            267 => Ok(Tags::NoMDEntryTypes),
            268 => Ok(Tags::NoMDEntries),
            269 => Ok(Tags::MDEntryType),
            270 => Ok(Tags::MDEntryPx),
            271 => Ok(Tags::MDEntrySize),
            272 => Ok(Tags::MDEntryDate),
            273 => Ok(Tags::MDEntryTime),
            274 => Ok(Tags::TickDirection),
            275 => Ok(Tags::MDMkt),
            276 => Ok(Tags::QuoteCondition),
            277 => Ok(Tags::TradeCondition),
            278 => Ok(Tags::MDEntryID),
            279 => Ok(Tags::MDUpdateAction),
            280 => Ok(Tags::MDEntryRefID),
            281 => Ok(Tags::MDReqRejReason),
            282 => Ok(Tags::MDEntryOriginator),
            283 => Ok(Tags::LocationID),
            284 => Ok(Tags::DeskID),
            285 => Ok(Tags::DeleteReason),
            286 => Ok(Tags::OpenCloseSettleFlag),
            287 => Ok(Tags::SellerDays),
            288 => Ok(Tags::MDEntryBuyer),
            289 => Ok(Tags::MDEntrySeller),
            290 => Ok(Tags::MDEntryPositionNo),
            291 => Ok(Tags::FinancialStatus),
            292 => Ok(Tags::CorporateAction),
            293 => Ok(Tags::DefBidSize),
            294 => Ok(Tags::DefOfferSize),
            295 => Ok(Tags::NoQuoteEntries),
            296 => Ok(Tags::NoQuoteSets),
            297 => Ok(Tags::QuoteAckStatus),
            298 => Ok(Tags::QuoteCancelType),
            299 => Ok(Tags::QuoteEntryID),
            300 => Ok(Tags::QuoteRejectReason),
            301 => Ok(Tags::QuoteResponseLevel),
            302 => Ok(Tags::QuoteSetID),
            303 => Ok(Tags::QuoteRequestType),
            304 => Ok(Tags::TotQuoteEntries),
            305 => Ok(Tags::UnderlyingIDSource),
            306 => Ok(Tags::UnderlyingIssuer),
            307 => Ok(Tags::UnderlyingSecurityDesc),
            308 => Ok(Tags::UnderlyingSecurityExchange),
            309 => Ok(Tags::UnderlyingSecurityID),
            310 => Ok(Tags::UnderlyingSecurityType),
            311 => Ok(Tags::UnderlyingSymbol),
            312 => Ok(Tags::UnderlyingSymbolSfx),
            313 => Ok(Tags::UnderlyingMaturityMonthYear),
            314 => Ok(Tags::UnderlyingMaturityDay),
            315 => Ok(Tags::UnderlyingPutOrCall),
            316 => Ok(Tags::UnderlyingStrikePrice),
            317 => Ok(Tags::UnderlyingOptAttribute),
            318 => Ok(Tags::UnderlyingCurrency),
            319 => Ok(Tags::RatioQty),
            320 => Ok(Tags::SecurityReqID),
            321 => Ok(Tags::SecurityRequestType),
            322 => Ok(Tags::SecurityResponseID),
            323 => Ok(Tags::SecurityResponseType),
            324 => Ok(Tags::SecurityStatusReqID),
            325 => Ok(Tags::UnsolicitedIndicator),
            326 => Ok(Tags::SecurityTradingStatus),
            327 => Ok(Tags::HaltReasonChar),
            328 => Ok(Tags::InViewOfCommon),
            329 => Ok(Tags::DueToRelated),
            330 => Ok(Tags::BuyVolume),
            331 => Ok(Tags::SellVolume),
            332 => Ok(Tags::HighPx),
            333 => Ok(Tags::LowPx),
            334 => Ok(Tags::Adjustment),
            335 => Ok(Tags::TradSesReqID),
            336 => Ok(Tags::TradingSessionID),
            337 => Ok(Tags::ContraTrader),
            338 => Ok(Tags::TradSesMethod),
            339 => Ok(Tags::TradSesMode),
            340 => Ok(Tags::TradSesStatus),
            341 => Ok(Tags::TradSesStartTime),
            342 => Ok(Tags::TradSesOpenTime),
            343 => Ok(Tags::TradSesPreCloseTime),
            344 => Ok(Tags::TradSesCloseTime),
            345 => Ok(Tags::TradSesEndTime),
            346 => Ok(Tags::NumberOfOrders),
            347 => Ok(Tags::MessageEncoding),
            348 => Ok(Tags::EncodedIssuerLen),
            349 => Ok(Tags::EncodedIssuer),
            350 => Ok(Tags::EncodedSecurityDescLen),
            351 => Ok(Tags::EncodedSecurityDesc),
            352 => Ok(Tags::EncodedListExecInstLen),
            353 => Ok(Tags::EncodedListExecInst),
            354 => Ok(Tags::EncodedTextLen),
            355 => Ok(Tags::EncodedText),
            356 => Ok(Tags::EncodedSubjectLen),
            357 => Ok(Tags::EncodedSubject),
            358 => Ok(Tags::EncodedHeadlineLen),
            359 => Ok(Tags::EncodedHeadline),
            360 => Ok(Tags::EncodedAllocTextLen),
            361 => Ok(Tags::EncodedAllocText),
            362 => Ok(Tags::EncodedUnderlyingIssuerLen),
            363 => Ok(Tags::EncodedUnderlyingIssuer),
            364 => Ok(Tags::EncodedUnderlyingSecurityDescLen),
            365 => Ok(Tags::EncodedUnderlyingSecurityDesc),
            366 => Ok(Tags::AllocPrice),
            367 => Ok(Tags::QuoteSetValidUntilTime),
            368 => Ok(Tags::QuoteEntryRejectReason),
            369 => Ok(Tags::LastMsgSeqNumProcessed),
            370 => Ok(Tags::OnBehalfOfSendingTime),
            371 => Ok(Tags::RefTagID),
            372 => Ok(Tags::RefMsgType),
            373 => Ok(Tags::SessionRejectReason),
            374 => Ok(Tags::BidRequestTransType),
            375 => Ok(Tags::ContraBroker),
            376 => Ok(Tags::ComplianceID),
            377 => Ok(Tags::SolicitedFlag),
            378 => Ok(Tags::ExecRestatementReason),
            379 => Ok(Tags::BusinessRejectRefID),
            380 => Ok(Tags::BusinessRejectReason),
            381 => Ok(Tags::GrossTradeAmt),
            382 => Ok(Tags::NoContraBrokers),
            383 => Ok(Tags::MaxMessageSize),
            384 => Ok(Tags::NoMsgTypes),
            385 => Ok(Tags::MsgDirection),
            386 => Ok(Tags::NoTradingSessions),
            387 => Ok(Tags::TotalVolumeTraded),
            388 => Ok(Tags::DiscretionInst),
            389 => Ok(Tags::DiscretionOffset),
            390 => Ok(Tags::BidID),
            391 => Ok(Tags::ClientBidID),
            392 => Ok(Tags::ListName),
            393 => Ok(Tags::TotalNumSecurities),
            394 => Ok(Tags::BidType),
            395 => Ok(Tags::NumTickets),
            396 => Ok(Tags::SideValue1),
            397 => Ok(Tags::SideValue2),
            398 => Ok(Tags::NoBidDescriptors),
            399 => Ok(Tags::BidDescriptorType),
            400 => Ok(Tags::BidDescriptor),
            401 => Ok(Tags::SideValueInd),
            402 => Ok(Tags::LiquidityPctLow),
            403 => Ok(Tags::LiquidityPctHigh),
            404 => Ok(Tags::LiquidityValue),
            405 => Ok(Tags::EFPTrackingError),
            406 => Ok(Tags::FairValue),
            407 => Ok(Tags::OutsideIndexPct),
            408 => Ok(Tags::ValueOfFutures),
            409 => Ok(Tags::LiquidityIndType),
            410 => Ok(Tags::WtAverageLiquidity),
            411 => Ok(Tags::ExchangeForPhysical),
            412 => Ok(Tags::OutMainCntryUIndex),
            413 => Ok(Tags::CrossPercent),
            414 => Ok(Tags::ProgRptReqs),
            415 => Ok(Tags::ProgPeriodInterval),
            416 => Ok(Tags::IncTaxInd),
            417 => Ok(Tags::NumBidders),
            418 => Ok(Tags::TradeType),
            419 => Ok(Tags::BasisPxType),
            420 => Ok(Tags::NoBidComponents),
            421 => Ok(Tags::Country),
            422 => Ok(Tags::TotNoStrikes),
            423 => Ok(Tags::PriceType),
            424 => Ok(Tags::DayOrderQty),
            425 => Ok(Tags::DayCumQty),
            426 => Ok(Tags::DayAvgPx),
            427 => Ok(Tags::GTBookingInst),
            428 => Ok(Tags::NoStrikes),
            429 => Ok(Tags::ListStatusType),
            430 => Ok(Tags::NetGrossInd),
            431 => Ok(Tags::ListOrderStatus),
            432 => Ok(Tags::ExpireDate),
            433 => Ok(Tags::ListExecInstType),
            434 => Ok(Tags::CxlRejResponseTo),
            435 => Ok(Tags::UnderlyingCouponRate),
            436 => Ok(Tags::UnderlyingContractMultiplier),
            437 => Ok(Tags::ContraTradeQty),
            438 => Ok(Tags::ContraTradeTime),
            439 => Ok(Tags::ClearingFirm),
            440 => Ok(Tags::ClearingAccount),
            441 => Ok(Tags::LiquidityNumSecurities),
            442 => Ok(Tags::MultiLegReportingType),
            443 => Ok(Tags::StrikeTime),
            444 => Ok(Tags::ListStatusText),
            445 => Ok(Tags::EncodedListStatusTextLen),
            446 => Ok(Tags::EncodedListStatusText),
            _ => Err(DecodeError::UnknownTag(u)),
        }
    }
}

impl From<Tags> for u32 {
    fn from(a: Tags) -> (r: u32) {
        a.as_u32()
    }
}

impl vstd::std_specs::convert::FromSpecImpl<Tags> for u32 {
    open spec fn obeys_from_spec() -> bool {
        true
    }

    open spec fn from_spec(a: Tags) -> u32 {
        a.spec_num()
    }
}

impl TryFrom<u32> for Tags {
    type Error = DecodeError;

    fn try_from(v: u32) -> (r: Result<Tags, DecodeError>) {
        Tags::from_u32(v)
    }
}

impl vstd::std_specs::convert::TryFromSpecImpl<u32> for Tags {
    open spec fn obeys_try_from_spec() -> bool {
        true
    }

    open spec fn try_from_spec(v: u32) -> Result<Tags, DecodeError> {
        Tags::spec_decode(v)
    }
}

#[derive(Debug, Clone, Copy, PartialEq, Eq, Structural)]
pub enum AdvSide {
    BUY,
    SELL,
    TRADE,
    CROSS,
}

impl AdvSide {
    pub open spec fn spec_char(self) -> char {
        match self {
            AdvSide::BUY => 'B',
            AdvSide::SELL => 'S',
            AdvSide::TRADE => 'T',
            AdvSide::CROSS => 'X',
        }
    }

    pub open spec fn spec_from(v: char) -> Option<AdvSide> {
        match v {
            'B' => Some(AdvSide::BUY),
            'S' => Some(AdvSide::SELL),
            'T' => Some(AdvSide::TRADE),
            'X' => Some(AdvSide::CROSS),
            _ => None,
        }
    }

    pub open spec fn spec_decode(c: char) -> Result<AdvSide, DecodeError> {
        match AdvSide::spec_from(c) {
            Some(x) => Ok(x),
            None => Err(DecodeError::UnknownChar(Tags::AdvSide, c)),
        }
    }

    pub fn as_char(&self) -> (r: char)
        ensures
            r == self.spec_char(),
    {
        match self {
            AdvSide::BUY => 'B',
            AdvSide::SELL => 'S',
            AdvSide::TRADE => 'T',
            AdvSide::CROSS => 'X',
        }
    }

    pub fn from_char(c: char) -> (r: Result<AdvSide, DecodeError>)
        ensures
            r == AdvSide::spec_decode(c),
    {
        match c {
            'B' => Ok(AdvSide::BUY),
            'S' => Ok(AdvSide::SELL),
            'T' => Ok(AdvSide::TRADE),
            'X' => Ok(AdvSide::CROSS),
            _ => Err(DecodeError::UnknownChar(Tags::AdvSide, c)),
        }
    }

    /// The value as the one ASCII byte that stands for it on the wire.
    pub fn as_bytes(&self) -> (r: Vec<u8>)
        ensures
            r@ == seq![self.spec_char() as u8],
    {
        vec![self.as_char() as u8]
    }
}

impl From<AdvSide> for char {
    fn from(a: AdvSide) -> (r: char) {
        a.as_char()
    }
}

impl vstd::std_specs::convert::FromSpecImpl<AdvSide> for char {
    open spec fn obeys_from_spec() -> bool {
        true
    }

    open spec fn from_spec(a: AdvSide) -> char {
        a.spec_char()
    }
}

impl TryFrom<char> for AdvSide {
    type Error = DecodeError;

    fn try_from(v: char) -> (r: Result<AdvSide, DecodeError>) {
        AdvSide::from_char(v)
    }
}

impl vstd::std_specs::convert::TryFromSpecImpl<char> for AdvSide {
    open spec fn obeys_try_from_spec() -> bool {
        true
    }

    open spec fn try_from_spec(v: char) -> Result<AdvSide, DecodeError> {
        AdvSide::spec_decode(v)
    }
}

#[derive(Debug, Clone, Copy, PartialEq, Eq, Structural)]
pub enum CommType {
    PER_SHARE,
    PERCENTAGE,
    ABSOLUTE,
}

impl CommType {
    pub open spec fn spec_char(self) -> char {
        match self {
            CommType::PER_SHARE => '1',
            CommType::PERCENTAGE => '2',
            CommType::ABSOLUTE => '3',
        }
    }

    pub open spec fn spec_from(v: char) -> Option<CommType> {
        match v {
            '1' => Some(CommType::PER_SHARE),
            '2' => Some(CommType::PERCENTAGE),
            '3' => Some(CommType::ABSOLUTE),
            _ => None,
        }
    }

    pub open spec fn spec_decode(c: char) -> Result<CommType, DecodeError> {
        match CommType::spec_from(c) {
            Some(x) => Ok(x),
            None => Err(DecodeError::UnknownChar(Tags::CommType, c)),
        }
    }

    pub fn as_char(&self) -> (r: char)
        ensures
            r == self.spec_char(),
    {
        match self {
            CommType::PER_SHARE => '1',
            CommType::PERCENTAGE => '2',
            CommType::ABSOLUTE => '3',
        }
    }

    pub fn from_char(c: char) -> (r: Result<CommType, DecodeError>)
        ensures
            r == CommType::spec_decode(c),
    {
        match c {
            '1' => Ok(CommType::PER_SHARE),
            '2' => Ok(CommType::PERCENTAGE),
            '3' => Ok(CommType::ABSOLUTE),
            _ => Err(DecodeError::UnknownChar(Tags::CommType, c)),
        }
    }

    /// The value as the one ASCII byte that stands for it on the wire.
    pub fn as_bytes(&self) -> (r: Vec<u8>)
        ensures
            r@ == seq![self.spec_char() as u8],
    {
        vec![self.as_char() as u8]
    }
}

impl From<CommType> for char {
    fn from(a: CommType) -> (r: char) {
        a.as_char()
    }
}

impl vstd::std_specs::convert::FromSpecImpl<CommType> for char {
    open spec fn obeys_from_spec() -> bool {
        true
    }

    open spec fn from_spec(a: CommType) -> char {
        a.spec_char()
    }
}

impl TryFrom<char> for CommType {
    type Error = DecodeError;

    fn try_from(v: char) -> (r: Result<CommType, DecodeError>) {
        CommType::from_char(v)
    }
}

impl vstd::std_specs::convert::TryFromSpecImpl<char> for CommType {
    open spec fn obeys_try_from_spec() -> bool {
        true
    }

    open spec fn try_from_spec(v: char) -> Result<CommType, DecodeError> {
        CommType::spec_decode(v)
    }
}

#[derive(Debug, Clone, Copy, PartialEq, Eq, Structural)]
pub enum ExecTransType {
    NEW,
    CANCEL,
    CORRECT,
    STATUS,
}

impl ExecTransType {
    pub open spec fn spec_char(self) -> char {
        match self {
            ExecTransType::NEW => '0',
            ExecTransType::CANCEL => '1',
            ExecTransType::CORRECT => '2',
            ExecTransType::STATUS => '3',
        }
    }

    pub open spec fn spec_from(v: char) -> Option<ExecTransType> {
        match v {
            '0' => Some(ExecTransType::NEW),
            '1' => Some(ExecTransType::CANCEL),
            '2' => Some(ExecTransType::CORRECT),
            '3' => Some(ExecTransType::STATUS),
            _ => None,
        }
    }

    pub open spec fn spec_decode(c: char) -> Result<ExecTransType, DecodeError> {
        match ExecTransType::spec_from(c) {
            Some(x) => Ok(x),
            None => Err(DecodeError::UnknownChar(Tags::ExecTransType, c)),
        }
    }

    pub fn as_char(&self) -> (r: char)
        ensures
            r == self.spec_char(),
    {
        match self {
            ExecTransType::NEW => '0',
            ExecTransType::CANCEL => '1',
            ExecTransType::CORRECT => '2',
            ExecTransType::STATUS => '3',
        }
    }

    pub fn from_char(c: char) -> (r: Result<ExecTransType, DecodeError>)
        ensures
            r == ExecTransType::spec_decode(c),
    {
        match c {
            '0' => Ok(ExecTransType::NEW),
            '1' => Ok(ExecTransType::CANCEL),
            '2' => Ok(ExecTransType::CORRECT),
            '3' => Ok(ExecTransType::STATUS),
            _ => Err(DecodeError::UnknownChar(Tags::ExecTransType, c)),
        }
    }

    /// The value as the one ASCII byte that stands for it on the wire.
    pub fn as_bytes(&self) -> (r: Vec<u8>)
        ensures
            r@ == seq![self.spec_char() as u8],
    {
        vec![self.as_char() as u8]
    }
}

impl From<ExecTransType> for char {
    fn from(a: ExecTransType) -> (r: char) {
        a.as_char()
    }
}

impl vstd::std_specs::convert::FromSpecImpl<ExecTransType> for char {
    open spec fn obeys_from_spec() -> bool {
        true
    }

    open spec fn from_spec(a: ExecTransType) -> char {
        a.spec_char()
    }
}

impl TryFrom<char> for ExecTransType {
    type Error = DecodeError;

    fn try_from(v: char) -> (r: Result<ExecTransType, DecodeError>) {
        ExecTransType::from_char(v)
    }
}

impl vstd::std_specs::convert::TryFromSpecImpl<char> for ExecTransType {
    open spec fn obeys_try_from_spec() -> bool {
        true
    }

    open spec fn try_from_spec(v: char) -> Result<ExecTransType, DecodeError> {
        ExecTransType::spec_decode(v)
    }
}

#[derive(Debug, Clone, Copy, PartialEq, Eq, Structural)]
pub enum HandlInst {
    AUTOMATED_EXECUTION_ORDER_PRIVATE_NO_BROKER_INTERVENTION,
    AUTOMATED_EXECUTION_ORDER_PUBLIC_BROKER_INTERVENTION_OK,
    MANUAL_ORDER_BEST_EXECUTION,
}

impl HandlInst {
    pub open spec fn spec_char(self) -> char {
        match self {
            HandlInst::AUTOMATED_EXECUTION_ORDER_PRIVATE_NO_BROKER_INTERVENTION => '1',
            HandlInst::AUTOMATED_EXECUTION_ORDER_PUBLIC_BROKER_INTERVENTION_OK => '2',
            HandlInst::MANUAL_ORDER_BEST_EXECUTION => '3',
        }
    }

    pub open spec fn spec_from(v: char) -> Option<HandlInst> {
        match v {
            '1' => Some(HandlInst::AUTOMATED_EXECUTION_ORDER_PRIVATE_NO_BROKER_INTERVENTION),
            '2' => Some(HandlInst::AUTOMATED_EXECUTION_ORDER_PUBLIC_BROKER_INTERVENTION_OK),
            '3' => Some(HandlInst::MANUAL_ORDER_BEST_EXECUTION),
            _ => None,
        }
    }

    pub open spec fn spec_decode(c: char) -> Result<HandlInst, DecodeError> {
        match HandlInst::spec_from(c) {
            Some(x) => Ok(x),
            None => Err(DecodeError::UnknownChar(Tags::HandlInst, c)),
        }
    }

    pub fn as_char(&self) -> (r: char)
        ensures
            r == self.spec_char(),
    {
        match self {
            HandlInst::AUTOMATED_EXECUTION_ORDER_PRIVATE_NO_BROKER_INTERVENTION => '1',
            HandlInst::AUTOMATED_EXECUTION_ORDER_PUBLIC_BROKER_INTERVENTION_OK => '2',
            HandlInst::MANUAL_ORDER_BEST_EXECUTION => '3',
        }
    }

    pub fn from_char(c: char) -> (r: Result<HandlInst, DecodeError>)
        ensures
            r == HandlInst::spec_decode(c),
    {
        match c {
            '1' => Ok(HandlInst::AUTOMATED_EXECUTION_ORDER_PRIVATE_NO_BROKER_INTERVENTION),
            '2' => Ok(HandlInst::AUTOMATED_EXECUTION_ORDER_PUBLIC_BROKER_INTERVENTION_OK),
            '3' => Ok(HandlInst::MANUAL_ORDER_BEST_EXECUTION),
            _ => Err(DecodeError::UnknownChar(Tags::HandlInst, c)),
        }
    }

    /// The value as the one ASCII byte that stands for it on the wire.
    pub fn as_bytes(&self) -> (r: Vec<u8>)
        ensures
            r@ == seq![self.spec_char() as u8],
    {
        vec![self.as_char() as u8]
    }
}

impl From<HandlInst> for char {
    fn from(a: HandlInst) -> (r: char) {
        a.as_char()
    }
}

impl vstd::std_specs::convert::FromSpecImpl<HandlInst> for char {
    open spec fn obeys_from_spec() -> bool {
        true
    }

    open spec fn from_spec(a: HandlInst) -> char {
        a.spec_char()
    }
}

impl TryFrom<char> for HandlInst {
    type Error = DecodeError;

    fn try_from(v: char) -> (r: Result<HandlInst, DecodeError>) {
        HandlInst::from_char(v)
    }
}

impl vstd::std_specs::convert::TryFromSpecImpl<char> for HandlInst {
    open spec fn obeys_try_from_spec() -> bool {
        true
    }

    open spec fn try_from_spec(v: char) -> Result<HandlInst, DecodeError> {
        HandlInst::spec_decode(v)
    }
}

#[derive(Debug, Clone, Copy, PartialEq, Eq, Structural)]
pub enum IOIQltyInd {
    HIGH,
    LOW,
    MEDIUM,
}

impl IOIQltyInd {
    pub open spec fn spec_char(self) -> char {
        match self {
            IOIQltyInd::HIGH => 'H',
            IOIQltyInd::LOW => 'L',
            IOIQltyInd::MEDIUM => 'M',
        }
    }

    pub open spec fn spec_from(v: char) -> Option<IOIQltyInd> {
        match v {
            'H' => Some(IOIQltyInd::HIGH),
            'L' => Some(IOIQltyInd::LOW),
            'M' => Some(IOIQltyInd::MEDIUM),
            _ => None,
        }
    }

    pub open spec fn spec_decode(c: char) -> Result<IOIQltyInd, DecodeError> {
        match IOIQltyInd::spec_from(c) {
            Some(x) => Ok(x),
            None => Err(DecodeError::UnknownChar(Tags::IOIQltyInd, c)),
        }
    }

    pub fn as_char(&self) -> (r: char)
        ensures
            r == self.spec_char(),
    {
        match self {
            IOIQltyInd::HIGH => 'H',
            IOIQltyInd::LOW => 'L',
            IOIQltyInd::MEDIUM => 'M',
        }
    }

    pub fn from_char(c: char) -> (r: Result<IOIQltyInd, DecodeError>)
        ensures
            r == IOIQltyInd::spec_decode(c),
    {
        match c {
            'H' => Ok(IOIQltyInd::HIGH),
            'L' => Ok(IOIQltyInd::LOW),
            'M' => Ok(IOIQltyInd::MEDIUM),
            _ => Err(DecodeError::UnknownChar(Tags::IOIQltyInd, c)),
        }
    }

    /// The value as the one ASCII byte that stands for it on the wire.
    pub fn as_bytes(&self) -> (r: Vec<u8>)
        ensures
            r@ == seq![self.spec_char() as u8],
    {
        vec![self.as_char() as u8]
    }
}

impl From<IOIQltyInd> for char {
    fn from(a: IOIQltyInd) -> (r: char) {
        a.as_char()
    }
}

impl vstd::std_specs::convert::FromSpecImpl<IOIQltyInd> for char {
    open spec fn obeys_from_spec() -> bool {
        true
    }

    open spec fn from_spec(a: IOIQltyInd) -> char {
        a.spec_char()
    }
}

impl TryFrom<char> for IOIQltyInd {
    type Error = DecodeError;

    fn try_from(v: char) -> (r: Result<IOIQltyInd, DecodeError>) {
        IOIQltyInd::from_char(v)
    }
}

impl vstd::std_specs::convert::TryFromSpecImpl<char> for IOIQltyInd {
    open spec fn obeys_try_from_spec() -> bool {
        true
    }

    open spec fn try_from_spec(v: char) -> Result<IOIQltyInd, DecodeError> {
        IOIQltyInd::spec_decode(v)
    }
}

#[derive(Debug, Clone, Copy, PartialEq, Eq, Structural)]
pub enum IOITransType {
    CANCEL,
    NEW,
    REPLACE,
}

impl IOITransType {
    pub open spec fn spec_char(self) -> char {
        match self {
            IOITransType::CANCEL => 'C',
            IOITransType::NEW => 'N',
            IOITransType::REPLACE => 'R',
        }
    }

    pub open spec fn spec_from(v: char) -> Option<IOITransType> {
        match v {
            'C' => Some(IOITransType::CANCEL),
            'N' => Some(IOITransType::NEW),
            'R' => Some(IOITransType::REPLACE),
            _ => None,
        }
    }

    pub open spec fn spec_decode(c: char) -> Result<IOITransType, DecodeError> {
        match IOITransType::spec_from(c) {
            Some(x) => Ok(x),
            None => Err(DecodeError::UnknownChar(Tags::IOITransType, c)),
        }
    }

    pub fn as_char(&self) -> (r: char)
        ensures
            r == self.spec_char(),
    {
        match self {
            IOITransType::CANCEL => 'C',
            IOITransType::NEW => 'N',
            IOITransType::REPLACE => 'R',
        }
    }

    pub fn from_char(c: char) -> (r: Result<IOITransType, DecodeError>)
        ensures
            r == IOITransType::spec_decode(c),
    {
        match c {
            'C' => Ok(IOITransType::CANCEL),
            'N' => Ok(IOITransType::NEW),
            'R' => Ok(IOITransType::REPLACE),
            _ => Err(DecodeError::UnknownChar(Tags::IOITransType, c)),
        }
    }

    /// The value as the one ASCII byte that stands for it on the wire.
    pub fn as_bytes(&self) -> (r: Vec<u8>)
        ensures
            r@ == seq![self.spec_char() as u8],
    {
        vec![self.as_char() as u8]
    }
}

impl From<IOITransType> for char {
    fn from(a: IOITransType) -> (r: char) {
        a.as_char()
    }
}

impl vstd::std_specs::convert::FromSpecImpl<IOITransType> for char {
    open spec fn obeys_from_spec() -> bool {
        true
    }

    open spec fn from_spec(a: IOITransType) -> char {
        a.spec_char()
    }
}

impl TryFrom<char> for IOITransType {
    type Error = DecodeError;

    fn try_from(v: char) -> (r: Result<IOITransType, DecodeError>) {
        IOITransType::from_char(v)
    }
}

impl vstd::std_specs::convert::TryFromSpecImpl<char> for IOITransType {
    open spec fn obeys_try_from_spec() -> bool {
        true
    }

    open spec fn try_from_spec(v: char) -> Result<IOITransType, DecodeError> {
        IOITransType::spec_decode(v)
    }
}

#[derive(Debug, Clone, Copy, PartialEq, Eq, Structural)]
pub enum LastCapacity {
    AGENT,
    CROSS_AS_AGENT,
    CROSS_AS_PRINCIPAL,
    PRINCIPAL,
}

impl LastCapacity {
    pub open spec fn spec_char(self) -> char {
        match self {
            LastCapacity::AGENT => '1',
            LastCapacity::CROSS_AS_AGENT => '2',
            LastCapacity::CROSS_AS_PRINCIPAL => '3',
            LastCapacity::PRINCIPAL => '4',
        }
    }

    pub open spec fn spec_from(v: char) -> Option<LastCapacity> {
        match v {
            '1' => Some(LastCapacity::AGENT),
            '2' => Some(LastCapacity::CROSS_AS_AGENT),
            '3' => Some(LastCapacity::CROSS_AS_PRINCIPAL),
            '4' => Some(LastCapacity::PRINCIPAL),
            _ => None,
        }
    }

    pub open spec fn spec_decode(c: char) -> Result<LastCapacity, DecodeError> {
        match LastCapacity::spec_from(c) {
            Some(x) => Ok(x),
            None => Err(DecodeError::UnknownChar(Tags::LastCapacity, c)),
        }
    }

    pub fn as_char(&self) -> (r: char)
        ensures
            r == self.spec_char(),
    {
        match self {
            LastCapacity::AGENT => '1',
            LastCapacity::CROSS_AS_AGENT => '2',
            LastCapacity::CROSS_AS_PRINCIPAL => '3',
            LastCapacity::PRINCIPAL => '4',
        }
    }

    pub fn from_char(c: char) -> (r: Result<LastCapacity, DecodeError>)
        ensures
            r == LastCapacity::spec_decode(c),
    {
        match c {
            '1' => Ok(LastCapacity::AGENT),
            '2' => Ok(LastCapacity::CROSS_AS_AGENT),
            '3' => Ok(LastCapacity::CROSS_AS_PRINCIPAL),
            '4' => Ok(LastCapacity::PRINCIPAL),
            _ => Err(DecodeError::UnknownChar(Tags::LastCapacity, c)),
        }
    }

    /// The value as the one ASCII byte that stands for it on the wire.
    pub fn as_bytes(&self) -> (r: Vec<u8>)
        ensures
            r@ == seq![self.spec_char() as u8],
    {
        vec![self.as_char() as u8]
    }
}

impl From<LastCapacity> for char {
    fn from(a: LastCapacity) -> (r: char) {
        a.as_char()
    }
}

impl vstd::std_specs::convert::FromSpecImpl<LastCapacity> for char {
    open spec fn obeys_from_spec() -> bool {
        true
    }

    open spec fn from_spec(a: LastCapacity) -> char {
        a.spec_char()
    }
}

impl TryFrom<char> for LastCapacity {
    type Error = DecodeError;

    fn try_from(v: char) -> (r: Result<LastCapacity, DecodeError>) {
        LastCapacity::from_char(v)
    }
}

impl vstd::std_specs::convert::TryFromSpecImpl<char> for LastCapacity {
    open spec fn obeys_try_from_spec() -> bool {
        true
    }

    open spec fn try_from_spec(v: char) -> Result<LastCapacity, DecodeError> {
        LastCapacity::spec_decode(v)
    }
}

#[derive(Debug, Clone, Copy, PartialEq, Eq, Structural)]
pub enum MsgType {
    HEARTBEAT,
    TEST_REQUEST,
    RESEND_REQUEST,
    REJECT,
    SEQUENCE_RESET,
    LOGOUT,
    INDICATION_OF_INTEREST,
    ADVERTISEMENT,
    EXECUTION_REPORT,
    ORDER_CANCEL_REJECT,
    QUOTE_STATUS_REQUEST,
    LOGON,
    NEWS,
    QUOTE_ACKNOWLEDGEMENT,
    EMAIL,
    SECURITY_DEFINITION_REQUEST,
    ORDER_SINGLE,
    SECURITY_DEFINITION,
    ORDER_LIST,
    SECURITY_STATUS_REQUEST,
    SECURITY_STATUS,
    ORDER_CANCEL_REQUEST,
    ORDER_CANCEL_REPLACE_REQUEST,
    TRADING_SESSION_STATUS_REQUEST,
    ORDER_STATUS_REQUEST,
    TRADING_SESSION_STATUS,
    MASS_QUOTE,
    BUSINESS_MESSAGE_REJECT,
    ALLOCATION,
    LIST_CANCEL_REQUEST,
    BID_REQUEST,
    BID_RESPONSE,
    LIST_EXECUTE,
    LIST_STRIKE_PRICE,
    LIST_STATUS_REQUEST,
    LIST_STATUS,
    ALLOCATION_ACK,
    DONT_KNOW_TRADE,
    QUOTE_REQUEST,
    QUOTE,
    SETTLEMENT_INSTRUCTIONS,
    MARKET_DATA_REQUEST,
    MARKET_DATA_SNAPSHOT_FULL_REFRESH,
    MARKET_DATA_INCREMENTAL_REFRESH,
    MARKET_DATA_REQUEST_REJECT,
    QUOTE_CANCEL,
}

impl MsgType {
    pub open spec fn spec_char(self) -> char {
        match self {
            MsgType::HEARTBEAT => '0',
            MsgType::TEST_REQUEST => '1',
            MsgType::RESEND_REQUEST => '2',
            MsgType::REJECT => '3',
            MsgType::SEQUENCE_RESET => '4',
            MsgType::LOGOUT => '5',
            MsgType::INDICATION_OF_INTEREST => '6',
            MsgType::ADVERTISEMENT => '7',
            MsgType::EXECUTION_REPORT => '8',
            MsgType::ORDER_CANCEL_REJECT => '9',
            MsgType::QUOTE_STATUS_REQUEST => 'a',
            MsgType::LOGON => 'A',
            MsgType::NEWS => 'B',
            MsgType::QUOTE_ACKNOWLEDGEMENT => 'b',
            MsgType::EMAIL => 'C',
            MsgType::SECURITY_DEFINITION_REQUEST => 'c',
            MsgType::ORDER_SINGLE => 'D',
            MsgType::SECURITY_DEFINITION => 'd',
            MsgType::ORDER_LIST => 'E',
            MsgType::SECURITY_STATUS_REQUEST => 'e',
            MsgType::SECURITY_STATUS => 'f',
            MsgType::ORDER_CANCEL_REQUEST => 'F',
            MsgType::ORDER_CANCEL_REPLACE_REQUEST => 'G',
            MsgType::TRADING_SESSION_STATUS_REQUEST => 'g',
            MsgType::ORDER_STATUS_REQUEST => 'H',
            MsgType::TRADING_SESSION_STATUS => 'h',
            MsgType::MASS_QUOTE => 'i',
            MsgType::BUSINESS_MESSAGE_REJECT => 'j',
            MsgType::ALLOCATION => 'J',
            MsgType::LIST_CANCEL_REQUEST => 'K',
            MsgType::BID_REQUEST => 'k',
            MsgType::BID_RESPONSE => 'l',
            MsgType::LIST_EXECUTE => 'L',
            MsgType::LIST_STRIKE_PRICE => 'm',
            MsgType::LIST_STATUS_REQUEST => 'M',
            MsgType::LIST_STATUS => 'N',
            MsgType::ALLOCATION_ACK => 'P',
            MsgType::DONT_KNOW_TRADE => 'Q',
            MsgType::QUOTE_REQUEST => 'R',
            MsgType::QUOTE => 'S',
            MsgType::SETTLEMENT_INSTRUCTIONS => 'T',
            MsgType::MARKET_DATA_REQUEST => 'V',
            MsgType::MARKET_DATA_SNAPSHOT_FULL_REFRESH => 'W',
            MsgType::MARKET_DATA_INCREMENTAL_REFRESH => 'X',
            MsgType::MARKET_DATA_REQUEST_REJECT => 'Y',
            MsgType::QUOTE_CANCEL => 'Z',
        }
    }

    pub open spec fn spec_from(v: char) -> Option<MsgType> {
        match v {
            '0' => Some(MsgType::HEARTBEAT),
            '1' => Some(MsgType::TEST_REQUEST),
            '2' => Some(MsgType::RESEND_REQUEST),
            '3' => Some(MsgType::REJECT),
            '4' => Some(MsgType::SEQUENCE_RESET),
            '5' => Some(MsgType::LOGOUT),
            '6' => Some(MsgType::INDICATION_OF_INTEREST),
            '7' => Some(MsgType::ADVERTISEMENT),
            '8' => Some(MsgType::EXECUTION_REPORT),
            '9' => Some(MsgType::ORDER_CANCEL_REJECT),
            'a' => Some(MsgType::QUOTE_STATUS_REQUEST),
            'A' => Some(MsgType::LOGON),
            'B' => Some(MsgType::NEWS),
            'b' => Some(MsgType::QUOTE_ACKNOWLEDGEMENT),
            'C' => Some(MsgType::EMAIL),
            'c' => Some(MsgType::SECURITY_DEFINITION_REQUEST),
            'D' => Some(MsgType::ORDER_SINGLE),
            'd' => Some(MsgType::SECURITY_DEFINITION),
            'E' => Some(MsgType::ORDER_LIST),
            'e' => Some(MsgType::SECURITY_STATUS_REQUEST),
            'f' => Some(MsgType::SECURITY_STATUS),
            'F' => Some(MsgType::ORDER_CANCEL_REQUEST),
            'G' => Some(MsgType::ORDER_CANCEL_REPLACE_REQUEST),
            'g' => Some(MsgType::TRADING_SESSION_STATUS_REQUEST),
            'H' => Some(MsgType::ORDER_STATUS_REQUEST),
            'h' => Some(MsgType::TRADING_SESSION_STATUS),
            'i' => Some(MsgType::MASS_QUOTE),
            'j' => Some(MsgType::BUSINESS_MESSAGE_REJECT),
            'J' => Some(MsgType::ALLOCATION),
            'K' => Some(MsgType::LIST_CANCEL_REQUEST),
            'k' => Some(MsgType::BID_REQUEST),
            'l' => Some(MsgType::BID_RESPONSE),
            'L' => Some(MsgType::LIST_EXECUTE),
            'm' => Some(MsgType::LIST_STRIKE_PRICE),
            'M' => Some(MsgType::LIST_STATUS_REQUEST),
            'N' => Some(MsgType::LIST_STATUS),
            'P' => Some(MsgType::ALLOCATION_ACK),
            'Q' => Some(MsgType::DONT_KNOW_TRADE),
            'R' => Some(MsgType::QUOTE_REQUEST),
            'S' => Some(MsgType::QUOTE),
            'T' => Some(MsgType::SETTLEMENT_INSTRUCTIONS),
            'V' => Some(MsgType::MARKET_DATA_REQUEST),
            'W' => Some(MsgType::MARKET_DATA_SNAPSHOT_FULL_REFRESH),
            'X' => Some(MsgType::MARKET_DATA_INCREMENTAL_REFRESH),
            'Y' => Some(MsgType::MARKET_DATA_REQUEST_REJECT),
            'Z' => Some(MsgType::QUOTE_CANCEL),
            _ => None,
        }
    }

    pub open spec fn spec_decode(c: char) -> Result<MsgType, DecodeError> {
        match MsgType::spec_from(c) {
            Some(x) => Ok(x),
            None => Err(DecodeError::UnknownChar(Tags::MsgType, c)),
        }
    }

    pub fn as_char(&self) -> (r: char)
        ensures
            r == self.spec_char(),
    {
        match self {
            MsgType::HEARTBEAT => '0',
            MsgType::TEST_REQUEST => '1',
            MsgType::RESEND_REQUEST => '2',
            MsgType::REJECT => '3',
            MsgType::SEQUENCE_RESET => '4',
            MsgType::LOGOUT => '5',
            MsgType::INDICATION_OF_INTEREST => '6',
            MsgType::ADVERTISEMENT => '7',
            MsgType::EXECUTION_REPORT => '8',
            MsgType::ORDER_CANCEL_REJECT => '9',
            MsgType::QUOTE_STATUS_REQUEST => 'a',
            MsgType::LOGON => 'A',
            MsgType::NEWS => 'B',
            MsgType::QUOTE_ACKNOWLEDGEMENT => 'b',
            MsgType::EMAIL => 'C',
            MsgType::SECURITY_DEFINITION_REQUEST => 'c',
            MsgType::ORDER_SINGLE => 'D',
            MsgType::SECURITY_DEFINITION => 'd',
            MsgType::ORDER_LIST => 'E',
            MsgType::SECURITY_STATUS_REQUEST => 'e',
            MsgType::SECURITY_STATUS => 'f',
            MsgType::ORDER_CANCEL_REQUEST => 'F',
            MsgType::ORDER_CANCEL_REPLACE_REQUEST => 'G',
            MsgType::TRADING_SESSION_STATUS_REQUEST => 'g',
            MsgType::ORDER_STATUS_REQUEST => 'H',
            MsgType::TRADING_SESSION_STATUS => 'h',
            MsgType::MASS_QUOTE => 'i',
            MsgType::BUSINESS_MESSAGE_REJECT => 'j',
            MsgType::ALLOCATION => 'J',
            MsgType::LIST_CANCEL_REQUEST => 'K',
            MsgType::BID_REQUEST => 'k',
            MsgType::BID_RESPONSE => 'l',
            MsgType::LIST_EXECUTE => 'L',
            MsgType::LIST_STRIKE_PRICE => 'm',
            MsgType::LIST_STATUS_REQUEST => 'M',
            MsgType::LIST_STATUS => 'N',
            MsgType::ALLOCATION_ACK => 'P',
            MsgType::DONT_KNOW_TRADE => 'Q',
            MsgType::QUOTE_REQUEST => 'R',
            MsgType::QUOTE => 'S',
            MsgType::SETTLEMENT_INSTRUCTIONS => 'T',
            MsgType::MARKET_DATA_REQUEST => 'V',
            MsgType::MARKET_DATA_SNAPSHOT_FULL_REFRESH => 'W',
            MsgType::MARKET_DATA_INCREMENTAL_REFRESH => 'X',
            MsgType::MARKET_DATA_REQUEST_REJECT => 'Y',
            MsgType::QUOTE_CANCEL => 'Z',
        }
    }

    pub fn from_char(c: char) -> (r: Result<MsgType, DecodeError>)
        ensures
            r == MsgType::spec_decode(c),
    {
        match c {
            '0' => Ok(MsgType::HEARTBEAT),
            '1' => Ok(MsgType::TEST_REQUEST),
            '2' => Ok(MsgType::RESEND_REQUEST),
            '3' => Ok(MsgType::REJECT),
            '4' => Ok(MsgType::SEQUENCE_RESET),
            '5' => Ok(MsgType::LOGOUT),
            '6' => Ok(MsgType::INDICATION_OF_INTEREST),
            '7' => Ok(MsgType::ADVERTISEMENT),
            '8' => Ok(MsgType::EXECUTION_REPORT),
            '9' => Ok(MsgType::ORDER_CANCEL_REJECT),
            'a' => Ok(MsgType::QUOTE_STATUS_REQUEST),
            'A' => Ok(MsgType::LOGON),
            'B' => Ok(MsgType::NEWS),
            'b' => Ok(MsgType::QUOTE_ACKNOWLEDGEMENT),
            'C' => Ok(MsgType::EMAIL),
            'c' => Ok(MsgType::SECURITY_DEFINITION_REQUEST),
            'D' => Ok(MsgType::ORDER_SINGLE),
            'd' => Ok(MsgType::SECURITY_DEFINITION),
            'E' => Ok(MsgType::ORDER_LIST),
            'e' => Ok(MsgType::SECURITY_STATUS_REQUEST),
            'f' => Ok(MsgType::SECURITY_STATUS),
            'F' => Ok(MsgType::ORDER_CANCEL_REQUEST),
            'G' => Ok(MsgType::ORDER_CANCEL_REPLACE_REQUEST),
            'g' => Ok(MsgType::TRADING_SESSION_STATUS_REQUEST),
            'H' => Ok(MsgType::ORDER_STATUS_REQUEST),
            'h' => Ok(MsgType::TRADING_SESSION_STATUS),
            'i' => Ok(MsgType::MASS_QUOTE),
            'j' => Ok(MsgType::BUSINESS_MESSAGE_REJECT),
            'J' => Ok(MsgType::ALLOCATION),
            'K' => Ok(MsgType::LIST_CANCEL_REQUEST),
            'k' => Ok(MsgType::BID_REQUEST),
            'l' => Ok(MsgType::BID_RESPONSE),
            'L' => Ok(MsgType::LIST_EXECUTE),
            'm' => Ok(MsgType::LIST_STRIKE_PRICE),
            'M' => Ok(MsgType::LIST_STATUS_REQUEST),
            'N' => Ok(MsgType::LIST_STATUS),
            'P' => Ok(MsgType::ALLOCATION_ACK),
            'Q' => Ok(MsgType::DONT_KNOW_TRADE),
            'R' => Ok(MsgType::QUOTE_REQUEST),
            'S' => Ok(MsgType::QUOTE),
            'T' => Ok(MsgType::SETTLEMENT_INSTRUCTIONS),
            'V' => Ok(MsgType::MARKET_DATA_REQUEST),
            'W' => Ok(MsgType::MARKET_DATA_SNAPSHOT_FULL_REFRESH),
            'X' => Ok(MsgType::MARKET_DATA_INCREMENTAL_REFRESH),
            'Y' => Ok(MsgType::MARKET_DATA_REQUEST_REJECT),
            'Z' => Ok(MsgType::QUOTE_CANCEL),
            _ => Err(DecodeError::UnknownChar(Tags::MsgType, c)),
        }
    }

    /// The value as the one ASCII byte that stands for it on the wire.
    pub fn as_bytes(&self) -> (r: Vec<u8>)
        ensures
            r@ == seq![self.spec_char() as u8],
    {
        vec![self.as_char() as u8]
    }
}

impl From<MsgType> for char {
    fn from(a: MsgType) -> (r: char) {
        a.as_char()
    }
}

impl vstd::std_specs::convert::FromSpecImpl<MsgType> for char {
    open spec fn obeys_from_spec() -> bool {
        true
    }

    open spec fn from_spec(a: MsgType) -> char {
        a.spec_char()
    }
}

impl TryFrom<char> for MsgType {
    type Error = DecodeError;

    fn try_from(v: char) -> (r: Result<MsgType, DecodeError>) {
        MsgType::from_char(v)
    }
}

impl vstd::std_specs::convert::TryFromSpecImpl<char> for MsgType {
    open spec fn obeys_try_from_spec() -> bool {
        true
    }

    open spec fn try_from_spec(v: char) -> Result<MsgType, DecodeError> {
        MsgType::spec_decode(v)
    }
}

#[derive(Debug, Clone, Copy, PartialEq, Eq, Structural)]
pub enum OrdStatus {
    NEW,
    PARTIALLY_FILLED,
    FILLED,
    DONE_FOR_DAY,
    CANCELED,
    REPLACED,
    PENDING_CANCEL,
    STOPPED,
    REJECTED,
    SUSPENDED,
    PENDING_NEW,
    CALCULATED,
    EXPIRED,
    ACCEPTED_FOR_BIDDING,
    PENDING_REPLACE,
}

impl OrdStatus {
    pub open spec fn spec_char(self) -> char {
        match self {
            OrdStatus::NEW => '0',
            OrdStatus::PARTIALLY_FILLED => '1',
            OrdStatus::FILLED => '2',
            OrdStatus::DONE_FOR_DAY => '3',
            OrdStatus::CANCELED => '4',
            OrdStatus::REPLACED => '5',
            OrdStatus::PENDING_CANCEL => '6',
            OrdStatus::STOPPED => '7',
            OrdStatus::REJECTED => '8',
            OrdStatus::SUSPENDED => '9',
            OrdStatus::PENDING_NEW => 'A',
            OrdStatus::CALCULATED => 'B',
            OrdStatus::EXPIRED => 'C',
            OrdStatus::ACCEPTED_FOR_BIDDING => 'D',
            OrdStatus::PENDING_REPLACE => 'E',
        }
    }

    pub open spec fn spec_from(v: char) -> Option<OrdStatus> {
        match v {
            '0' => Some(OrdStatus::NEW),
            '1' => Some(OrdStatus::PARTIALLY_FILLED),
            '2' => Some(OrdStatus::FILLED),
            '3' => Some(OrdStatus::DONE_FOR_DAY),
            '4' => Some(OrdStatus::CANCELED),
            '5' => Some(OrdStatus::REPLACED),
            '6' => Some(OrdStatus::PENDING_CANCEL),
            '7' => Some(OrdStatus::STOPPED),
            '8' => Some(OrdStatus::REJECTED),
            '9' => Some(OrdStatus::SUSPENDED),
            'A' => Some(OrdStatus::PENDING_NEW),
            'B' => Some(OrdStatus::CALCULATED),
            'C' => Some(OrdStatus::EXPIRED),
            'D' => Some(OrdStatus::ACCEPTED_FOR_BIDDING),
            'E' => Some(OrdStatus::PENDING_REPLACE),
            _ => None,
        }
    }

    pub open spec fn spec_decode(c: char) -> Result<OrdStatus, DecodeError> {
        match OrdStatus::spec_from(c) {
            Some(x) => Ok(x),
            None => Err(DecodeError::UnknownChar(Tags::OrdStatus, c)),
        }
    }

    pub fn as_char(&self) -> (r: char)
        ensures
            r == self.spec_char(),
    {
        match self {
            OrdStatus::NEW => '0',
            OrdStatus::PARTIALLY_FILLED => '1',
            OrdStatus::FILLED => '2',
            OrdStatus::DONE_FOR_DAY => '3',
            OrdStatus::CANCELED => '4',
            OrdStatus::REPLACED => '5',
            OrdStatus::PENDING_CANCEL => '6',
            OrdStatus::STOPPED => '7',
            OrdStatus::REJECTED => '8',
            OrdStatus::SUSPENDED => '9',
            OrdStatus::PENDING_NEW => 'A',
            OrdStatus::CALCULATED => 'B',
            OrdStatus::EXPIRED => 'C',
            OrdStatus::ACCEPTED_FOR_BIDDING => 'D',
            OrdStatus::PENDING_REPLACE => 'E',
        }
    }

    pub fn from_char(c: char) -> (r: Result<OrdStatus, DecodeError>)
        ensures
            r == OrdStatus::spec_decode(c),
    {
        match c {
            '0' => Ok(OrdStatus::NEW),
            '1' => Ok(OrdStatus::PARTIALLY_FILLED),
            '2' => Ok(OrdStatus::FILLED),
            '3' => Ok(OrdStatus::DONE_FOR_DAY),
            '4' => Ok(OrdStatus::CANCELED),
            '5' => Ok(OrdStatus::REPLACED),
            '6' => Ok(OrdStatus::PENDING_CANCEL),
            '7' => Ok(OrdStatus::STOPPED),
            '8' => Ok(OrdStatus::REJECTED),
            '9' => Ok(OrdStatus::SUSPENDED),
            'A' => Ok(OrdStatus::PENDING_NEW),
            'B' => Ok(OrdStatus::CALCULATED),
            'C' => Ok(OrdStatus::EXPIRED),
            'D' => Ok(OrdStatus::ACCEPTED_FOR_BIDDING),
            'E' => Ok(OrdStatus::PENDING_REPLACE),
            _ => Err(DecodeError::UnknownChar(Tags::OrdStatus, c)),
        }
    }

    /// The value as the one ASCII byte that stands for it on the wire.
    pub fn as_bytes(&self) -> (r: Vec<u8>)
        ensures
            r@ == seq![self.spec_char() as u8],
    {
        vec![self.as_char() as u8]
    }
}

impl From<OrdStatus> for char {
    fn from(a: OrdStatus) -> (r: char) {
        a.as_char()
    }
}

impl vstd::std_specs::convert::FromSpecImpl<OrdStatus> for char {
    open spec fn obeys_from_spec() -> bool {
        true
    }

    open spec fn from_spec(a: OrdStatus) -> char {
        a.spec_char()
    }
}

impl TryFrom<char> for OrdStatus {
    type Error = DecodeError;

    fn try_from(v: char) -> (r: Result<OrdStatus, DecodeError>) {
        OrdStatus::from_char(v)
    }
}

impl vstd::std_specs::convert::TryFromSpecImpl<char> for OrdStatus {
    open spec fn obeys_try_from_spec() -> bool {
        true
    }

    open spec fn try_from_spec(v: char) -> Result<OrdStatus, DecodeError> {
        OrdStatus::spec_decode(v)
    }
}

#[derive(Debug, Clone, Copy, PartialEq, Eq, Structural)]
pub enum OrdType {
    MARKET,
    LIMIT,
    STOP,
    STOP_LIMIT,
    MARKET_ON_CLOSE,
    WITH_OR_WITHOUT,
    LIMIT_OR_BETTER,
    LIMIT_WITH_OR_WITHOUT,
    ON_BASIS,
    ON_CLOSE,
    LIMIT_ON_CLOSE,
    FOREX_C,
    PREVIOUSLY_QUOTED,
    PREVIOUSLY_INDICATED,
    FOREX_F,
    FOREX_G,
    FOREX_H,
    FUNARI,
    PEGGED,
}

impl OrdType {
    pub open spec fn spec_char(self) -> char {
        match self {
            OrdType::MARKET => '1',
            OrdType::LIMIT => '2',
            OrdType::STOP => '3',
            OrdType::STOP_LIMIT => '4',
            OrdType::MARKET_ON_CLOSE => '5',
            OrdType::WITH_OR_WITHOUT => '6',
            OrdType::LIMIT_OR_BETTER => '7',
            OrdType::LIMIT_WITH_OR_WITHOUT => '8',
            OrdType::ON_BASIS => '9',
            OrdType::ON_CLOSE => 'A',
            OrdType::LIMIT_ON_CLOSE => 'B',
            OrdType::FOREX_C => 'C',
            OrdType::PREVIOUSLY_QUOTED => 'D',
            OrdType::PREVIOUSLY_INDICATED => 'E',
            OrdType::FOREX_F => 'F',
            OrdType::FOREX_G => 'G',
            OrdType::FOREX_H => 'H',
            OrdType::FUNARI => 'I',
            OrdType::PEGGED => 'P',
        }
    }

    pub open spec fn spec_from(v: char) -> Option<OrdType> {
        match v {
            '1' => Some(OrdType::MARKET),
            '2' => Some(OrdType::LIMIT),
            '3' => Some(OrdType::STOP),
            '4' => Some(OrdType::STOP_LIMIT),
            '5' => Some(OrdType::MARKET_ON_CLOSE),
            '6' => Some(OrdType::WITH_OR_WITHOUT),
            '7' => Some(OrdType::LIMIT_OR_BETTER),
            '8' => Some(OrdType::LIMIT_WITH_OR_WITHOUT),
            '9' => Some(OrdType::ON_BASIS),
            'A' => Some(OrdType::ON_CLOSE),
            'B' => Some(OrdType::LIMIT_ON_CLOSE),
            'C' => Some(OrdType::FOREX_C),
            'D' => Some(OrdType::PREVIOUSLY_QUOTED),
            'E' => Some(OrdType::PREVIOUSLY_INDICATED),
            'F' => Some(OrdType::FOREX_F),
            'G' => Some(OrdType::FOREX_G),
            'H' => Some(OrdType::FOREX_H),
            'I' => Some(OrdType::FUNARI),
            'P' => Some(OrdType::PEGGED),
            _ => None,
        }
    }

    pub open spec fn spec_decode(c: char) -> Result<OrdType, DecodeError> {
        match OrdType::spec_from(c) {
            Some(x) => Ok(x),
            None => Err(DecodeError::UnknownChar(Tags::OrdType, c)),
        }
    }

    pub fn as_char(&self) -> (r: char)
        ensures
            r == self.spec_char(),
    {
        match self {
            OrdType::MARKET => '1',
            OrdType::LIMIT => '2',
            OrdType::STOP => '3',
            OrdType::STOP_LIMIT => '4',
            OrdType::MARKET_ON_CLOSE => '5',
            OrdType::WITH_OR_WITHOUT => '6',
            OrdType::LIMIT_OR_BETTER => '7',
            OrdType::LIMIT_WITH_OR_WITHOUT => '8',
            OrdType::ON_BASIS => '9',
            OrdType::ON_CLOSE => 'A',
            OrdType::LIMIT_ON_CLOSE => 'B',
            OrdType::FOREX_C => 'C',
            OrdType::PREVIOUSLY_QUOTED => 'D',
            OrdType::PREVIOUSLY_INDICATED => 'E',
            OrdType::FOREX_F => 'F',
            OrdType::FOREX_G => 'G',
            OrdType::FOREX_H => 'H',
            OrdType::FUNARI => 'I',
            OrdType::PEGGED => 'P',
        }
    }

    pub fn from_char(c: char) -> (r: Result<OrdType, DecodeError>)
        ensures
            r == OrdType::spec_decode(c),
    {
        match c {
            '1' => Ok(OrdType::MARKET),
            '2' => Ok(OrdType::LIMIT),
            '3' => Ok(OrdType::STOP),
            '4' => Ok(OrdType::STOP_LIMIT),
            '5' => Ok(OrdType::MARKET_ON_CLOSE),
            '6' => Ok(OrdType::WITH_OR_WITHOUT),
            '7' => Ok(OrdType::LIMIT_OR_BETTER),
            '8' => Ok(OrdType::LIMIT_WITH_OR_WITHOUT),
            '9' => Ok(OrdType::ON_BASIS),
            'A' => Ok(OrdType::ON_CLOSE),
            'B' => Ok(OrdType::LIMIT_ON_CLOSE),
            'C' => Ok(OrdType::FOREX_C),
            'D' => Ok(OrdType::PREVIOUSLY_QUOTED),
            'E' => Ok(OrdType::PREVIOUSLY_INDICATED),
            'F' => Ok(OrdType::FOREX_F),
            'G' => Ok(OrdType::FOREX_G),
            'H' => Ok(OrdType::FOREX_H),
            'I' => Ok(OrdType::FUNARI),
            'P' => Ok(OrdType::PEGGED),
            _ => Err(DecodeError::UnknownChar(Tags::OrdType, c)),
        }
    }

    /// The value as the one ASCII byte that stands for it on the wire.
    pub fn as_bytes(&self) -> (r: Vec<u8>)
        ensures
            r@ == seq![self.spec_char() as u8],
    {
        vec![self.as_char() as u8]
    }
}

impl From<OrdType> for char {
    fn from(a: OrdType) -> (r: char) {
        a.as_char()
    }
}

impl vstd::std_specs::convert::FromSpecImpl<OrdType> for char {
    open spec fn obeys_from_spec() -> bool {
        true
    }

    open spec fn from_spec(a: OrdType) -> char {
        a.spec_char()
    }
}

impl TryFrom<char> for OrdType {
    type Error = DecodeError;

    fn try_from(v: char) -> (r: Result<OrdType, DecodeError>) {
        OrdType::from_char(v)
    }
}

impl vstd::std_specs::convert::TryFromSpecImpl<char> for OrdType {
    open spec fn obeys_try_from_spec() -> bool {
        true
    }

    open spec fn try_from_spec(v: char) -> Result<OrdType, DecodeError> {
        OrdType::spec_decode(v)
    }
}

#[derive(Debug, Clone, Copy, PartialEq, Eq, Structural)]
pub enum PossDupFlag {
    NO,
    YES,
}

impl PossDupFlag {
    pub open spec fn spec_char(self) -> char {
        match self {
            PossDupFlag::NO => 'N',
            PossDupFlag::YES => 'Y',
        }
    }

    pub open spec fn spec_from(v: char) -> Option<PossDupFlag> {
        match v {
            'N' => Some(PossDupFlag::NO),
            'Y' => Some(PossDupFlag::YES),
            _ => None,
        }
    }

    pub open spec fn spec_decode(c: char) -> Result<PossDupFlag, DecodeError> {
        match PossDupFlag::spec_from(c) {
            Some(x) => Ok(x),
            None => Err(DecodeError::UnknownChar(Tags::PossDupFlag, c)),
        }
    }

    pub fn as_char(&self) -> (r: char)
        ensures
            r == self.spec_char(),
    {
        match self {
            PossDupFlag::NO => 'N',
            PossDupFlag::YES => 'Y',
        }
    }

    pub fn from_char(c: char) -> (r: Result<PossDupFlag, DecodeError>)
        ensures
            r == PossDupFlag::spec_decode(c),
    {
        match c {
            'N' => Ok(PossDupFlag::NO),
            'Y' => Ok(PossDupFlag::YES),
            _ => Err(DecodeError::UnknownChar(Tags::PossDupFlag, c)),
        }
    }

    /// The value as the one ASCII byte that stands for it on the wire.
    pub fn as_bytes(&self) -> (r: Vec<u8>)
        ensures
            r@ == seq![self.spec_char() as u8],
    {
        vec![self.as_char() as u8]
    }
}

impl From<PossDupFlag> for char {
    fn from(a: PossDupFlag) -> (r: char) {
        a.as_char()
    }
}

impl vstd::std_specs::convert::FromSpecImpl<PossDupFlag> for char {
    open spec fn obeys_from_spec() -> bool {
        true
    }

    open spec fn from_spec(a: PossDupFlag) -> char {
        a.spec_char()
    }
}

impl TryFrom<char> for PossDupFlag {
    type Error = DecodeError;

    fn try_from(v: char) -> (r: Result<PossDupFlag, DecodeError>) {
        PossDupFlag::from_char(v)
    }
}

impl vstd::std_specs::convert::TryFromSpecImpl<char> for PossDupFlag {
    open spec fn obeys_try_from_spec() -> bool {
        true
    }

    open spec fn try_from_spec(v: char) -> Result<PossDupFlag, DecodeError> {
        PossDupFlag::spec_decode(v)
    }
}

#[derive(Debug, Clone, Copy, PartialEq, Eq, Structural)]
pub enum Rule80A {
    AGENCY_SINGLE_ORDER,
    SHORT_EXEMPT_TRANSACTION_B,
    PROGRAM_ORDER_NON_INDEX_ARB_FOR_MEMBER_FIRM_ORG,
    PROGRAM_ORDER_INDEX_ARB_FOR_MEMBER_FIRM_ORG,
    REGISTERED_EQUITY_MARKET_MAKER_TRADES,
    SHORT_EXEMPT_TRANSACTION_F,
    SHORT_EXEMPT_TRANSACTION_H,
    INDIVIDUAL_INVESTOR_SINGLE_ORDER,
    PROGRAM_ORDER_INDEX_ARB_FOR_INDIVIDUAL_CUSTOMER,
    PROGRAM_ORDER_NON_INDEX_ARB_FOR_INDIVIDUAL_CUSTOMER,
    SHORT_EXEMPT_TRANSACTION_FOR_MEMBER_COMPETING_MARKET_MAKER_AFFILIATED_WITH_THE_FIRM_CLEARING_THE_TRADE,
    PROGRAM_ORDER_INDEX_ARB_FOR_OTHER_MEMBER,
    PROGRAM_ORDER_NON_INDEX_ARB_FOR_OTHER_MEMBER,
    COMPETING_DEALER_TRADES_O,
    PRINCIPAL,
    COMPETING_DEALER_TRADES_R,
    SPECIALIST_TRADES,
    COMPETING_DEALER_TRADES_T,
    PROGRAM_ORDER_INDEX_ARB_FOR_OTHER_AGENCY,
    ALL_OTHER_ORDERS_AS_AGENT_FOR_OTHER_MEMBER,
    SHORT_EXEMPT_TRANSACTION_FOR_MEMBER_COMPETING_MARKET_MAKER_NOT_AFFILIATED_WITH_THE_FIRM_CLEARING_THE_TRADE,
    PROGRAM_ORDER_NON_INDEX_ARB_FOR_OTHER_AGENCY,
    SHORT_EXEMPT_TRANSACTION_FOR_NON_MEMBER_COMPETING_MARKET_MAKER,
}

impl Rule80A {
    pub open spec fn spec_char(self) -> char {
        match self {
            Rule80A::AGENCY_SINGLE_ORDER => 'A',
            Rule80A::SHORT_EXEMPT_TRANSACTION_B => 'B',
            Rule80A::PROGRAM_ORDER_NON_INDEX_ARB_FOR_MEMBER_FIRM_ORG => 'C',
            Rule80A::PROGRAM_ORDER_INDEX_ARB_FOR_MEMBER_FIRM_ORG => 'D',
            Rule80A::REGISTERED_EQUITY_MARKET_MAKER_TRADES => 'E',
            Rule80A::SHORT_EXEMPT_TRANSACTION_F => 'F',
            Rule80A::SHORT_EXEMPT_TRANSACTION_H => 'H',
            Rule80A::INDIVIDUAL_INVESTOR_SINGLE_ORDER => 'I',
            Rule80A::PROGRAM_ORDER_INDEX_ARB_FOR_INDIVIDUAL_CUSTOMER => 'J',
            Rule80A::PROGRAM_ORDER_NON_INDEX_ARB_FOR_INDIVIDUAL_CUSTOMER => 'K',
            Rule80A::SHORT_EXEMPT_TRANSACTION_FOR_MEMBER_COMPETING_MARKET_MAKER_AFFILIATED_WITH_THE_FIRM_CLEARING_THE_TRADE => 'L',
            Rule80A::PROGRAM_ORDER_INDEX_ARB_FOR_OTHER_MEMBER => 'M',
            Rule80A::PROGRAM_ORDER_NON_INDEX_ARB_FOR_OTHER_MEMBER => 'N',
            Rule80A::COMPETING_DEALER_TRADES_O => 'O',
            Rule80A::PRINCIPAL => 'P',
            Rule80A::COMPETING_DEALER_TRADES_R => 'R',
            Rule80A::SPECIALIST_TRADES => 'S',
            Rule80A::COMPETING_DEALER_TRADES_T => 'T',
            Rule80A::PROGRAM_ORDER_INDEX_ARB_FOR_OTHER_AGENCY => 'U',
            Rule80A::ALL_OTHER_ORDERS_AS_AGENT_FOR_OTHER_MEMBER => 'W',
            Rule80A::SHORT_EXEMPT_TRANSACTION_FOR_MEMBER_COMPETING_MARKET_MAKER_NOT_AFFILIATED_WITH_THE_FIRM_CLEARING_THE_TRADE => 'X',
            Rule80A::PROGRAM_ORDER_NON_INDEX_ARB_FOR_OTHER_AGENCY => 'Y',
            Rule80A::SHORT_EXEMPT_TRANSACTION_FOR_NON_MEMBER_COMPETING_MARKET_MAKER => 'Z',
        }
    }

    pub open spec fn spec_from(v: char) -> Option<Rule80A> {
        match v {
            'A' => Some(Rule80A::AGENCY_SINGLE_ORDER),
            'B' => Some(Rule80A::SHORT_EXEMPT_TRANSACTION_B),
            'C' => Some(Rule80A::PROGRAM_ORDER_NON_INDEX_ARB_FOR_MEMBER_FIRM_ORG),
            'D' => Some(Rule80A::PROGRAM_ORDER_INDEX_ARB_FOR_MEMBER_FIRM_ORG),
            'E' => Some(Rule80A::REGISTERED_EQUITY_MARKET_MAKER_TRADES),
            'F' => Some(Rule80A::SHORT_EXEMPT_TRANSACTION_F),
            'H' => Some(Rule80A::SHORT_EXEMPT_TRANSACTION_H),
            'I' => Some(Rule80A::INDIVIDUAL_INVESTOR_SINGLE_ORDER),
            'J' => Some(Rule80A::PROGRAM_ORDER_INDEX_ARB_FOR_INDIVIDUAL_CUSTOMER),
            'K' => Some(Rule80A::PROGRAM_ORDER_NON_INDEX_ARB_FOR_INDIVIDUAL_CUSTOMER),
            'L' => Some(Rule80A::SHORT_EXEMPT_TRANSACTION_FOR_MEMBER_COMPETING_MARKET_MAKER_AFFILIATED_WITH_THE_FIRM_CLEARING_THE_TRADE),
            'M' => Some(Rule80A::PROGRAM_ORDER_INDEX_ARB_FOR_OTHER_MEMBER),
            'N' => Some(Rule80A::PROGRAM_ORDER_NON_INDEX_ARB_FOR_OTHER_MEMBER),
            'O' => Some(Rule80A::COMPETING_DEALER_TRADES_O),
            'P' => Some(Rule80A::PRINCIPAL),
            'R' => Some(Rule80A::COMPETING_DEALER_TRADES_R),
            'S' => Some(Rule80A::SPECIALIST_TRADES),
            'T' => Some(Rule80A::COMPETING_DEALER_TRADES_T),
            'U' => Some(Rule80A::PROGRAM_ORDER_INDEX_ARB_FOR_OTHER_AGENCY),
            'W' => Some(Rule80A::ALL_OTHER_ORDERS_AS_AGENT_FOR_OTHER_MEMBER),
            'X' => Some(Rule80A::SHORT_EXEMPT_TRANSACTION_FOR_MEMBER_COMPETING_MARKET_MAKER_NOT_AFFILIATED_WITH_THE_FIRM_CLEARING_THE_TRADE),
            'Y' => Some(Rule80A::PROGRAM_ORDER_NON_INDEX_ARB_FOR_OTHER_AGENCY),
            'Z' => Some(Rule80A::SHORT_EXEMPT_TRANSACTION_FOR_NON_MEMBER_COMPETING_MARKET_MAKER),
            _ => None,
        }
    }

    pub open spec fn spec_decode(c: char) -> Result<Rule80A, DecodeError> {
        match Rule80A::spec_from(c) {
            Some(x) => Ok(x),
            None => Err(DecodeError::UnknownChar(Tags::Rule80A, c)),
        }
    }

    pub fn as_char(&self) -> (r: char)
        ensures
            r == self.spec_char(),
    {
        match self {
            Rule80A::AGENCY_SINGLE_ORDER => 'A',
            Rule80A::SHORT_EXEMPT_TRANSACTION_B => 'B',
            Rule80A::PROGRAM_ORDER_NON_INDEX_ARB_FOR_MEMBER_FIRM_ORG => 'C',
            Rule80A::PROGRAM_ORDER_INDEX_ARB_FOR_MEMBER_FIRM_ORG => 'D',
            Rule80A::REGISTERED_EQUITY_MARKET_MAKER_TRADES => 'E',
            Rule80A::SHORT_EXEMPT_TRANSACTION_F => 'F',
            Rule80A::SHORT_EXEMPT_TRANSACTION_H => 'H',
            Rule80A::INDIVIDUAL_INVESTOR_SINGLE_ORDER => 'I',
            Rule80A::PROGRAM_ORDER_INDEX_ARB_FOR_INDIVIDUAL_CUSTOMER => 'J',
            Rule80A::PROGRAM_ORDER_NON_INDEX_ARB_FOR_INDIVIDUAL_CUSTOMER => 'K',
            Rule80A::SHORT_EXEMPT_TRANSACTION_FOR_MEMBER_COMPETING_MARKET_MAKER_AFFILIATED_WITH_THE_FIRM_CLEARING_THE_TRADE => 'L',
            Rule80A::PROGRAM_ORDER_INDEX_ARB_FOR_OTHER_MEMBER => 'M',
            Rule80A::PROGRAM_ORDER_NON_INDEX_ARB_FOR_OTHER_MEMBER => 'N',
            Rule80A::COMPETING_DEALER_TRADES_O => 'O',
            Rule80A::PRINCIPAL => 'P',
            Rule80A::COMPETING_DEALER_TRADES_R => 'R',
            Rule80A::SPECIALIST_TRADES => 'S',
            Rule80A::COMPETING_DEALER_TRADES_T => 'T',
            Rule80A::PROGRAM_ORDER_INDEX_ARB_FOR_OTHER_AGENCY => 'U',
            Rule80A::ALL_OTHER_ORDERS_AS_AGENT_FOR_OTHER_MEMBER => 'W',
            Rule80A::SHORT_EXEMPT_TRANSACTION_FOR_MEMBER_COMPETING_MARKET_MAKER_NOT_AFFILIATED_WITH_THE_FIRM_CLEARING_THE_TRADE => 'X',
            Rule80A::PROGRAM_ORDER_NON_INDEX_ARB_FOR_OTHER_AGENCY => 'Y',
            Rule80A::SHORT_EXEMPT_TRANSACTION_FOR_NON_MEMBER_COMPETING_MARKET_MAKER => 'Z',
        }
    }

    pub fn from_char(c: char) -> (r: Result<Rule80A, DecodeError>)
        ensures
            r == Rule80A::spec_decode(c),
    {
        match c {
            'A' => Ok(Rule80A::AGENCY_SINGLE_ORDER),
            'B' => Ok(Rule80A::SHORT_EXEMPT_TRANSACTION_B),
            'C' => Ok(Rule80A::PROGRAM_ORDER_NON_INDEX_ARB_FOR_MEMBER_FIRM_ORG),
            'D' => Ok(Rule80A::PROGRAM_ORDER_INDEX_ARB_FOR_MEMBER_FIRM_ORG),
            'E' => Ok(Rule80A::REGISTERED_EQUITY_MARKET_MAKER_TRADES),
            'F' => Ok(Rule80A::SHORT_EXEMPT_TRANSACTION_F),
            'H' => Ok(Rule80A::SHORT_EXEMPT_TRANSACTION_H),
            'I' => Ok(Rule80A::INDIVIDUAL_INVESTOR_SINGLE_ORDER),
            'J' => Ok(Rule80A::PROGRAM_ORDER_INDEX_ARB_FOR_INDIVIDUAL_CUSTOMER),
            'K' => Ok(Rule80A::PROGRAM_ORDER_NON_INDEX_ARB_FOR_INDIVIDUAL_CUSTOMER),
            'L' => Ok(Rule80A::SHORT_EXEMPT_TRANSACTION_FOR_MEMBER_COMPETING_MARKET_MAKER_AFFILIATED_WITH_THE_FIRM_CLEARING_THE_TRADE),
            'M' => Ok(Rule80A::PROGRAM_ORDER_INDEX_ARB_FOR_OTHER_MEMBER),
            'N' => Ok(Rule80A::PROGRAM_ORDER_NON_INDEX_ARB_FOR_OTHER_MEMBER),
            'O' => Ok(Rule80A::COMPETING_DEALER_TRADES_O),
            'P' => Ok(Rule80A::PRINCIPAL),
            'R' => Ok(Rule80A::COMPETING_DEALER_TRADES_R),
            'S' => Ok(Rule80A::SPECIALIST_TRADES),
            'T' => Ok(Rule80A::COMPETING_DEALER_TRADES_T),
            'U' => Ok(Rule80A::PROGRAM_ORDER_INDEX_ARB_FOR_OTHER_AGENCY),
            'W' => Ok(Rule80A::ALL_OTHER_ORDERS_AS_AGENT_FOR_OTHER_MEMBER),
            'X' => Ok(Rule80A::SHORT_EXEMPT_TRANSACTION_FOR_MEMBER_COMPETING_MARKET_MAKER_NOT_AFFILIATED_WITH_THE_FIRM_CLEARING_THE_TRADE),
            'Y' => Ok(Rule80A::PROGRAM_ORDER_NON_INDEX_ARB_FOR_OTHER_AGENCY),
            'Z' => Ok(Rule80A::SHORT_EXEMPT_TRANSACTION_FOR_NON_MEMBER_COMPETING_MARKET_MAKER),
            _ => Err(DecodeError::UnknownChar(Tags::Rule80A, c)),
        }
    }

    /// The value as the one ASCII byte that stands for it on the wire.
    pub fn as_bytes(&self) -> (r: Vec<u8>)
        ensures
            r@ == seq![self.spec_char() as u8],
    {
        vec![self.as_char() as u8]
    }
}

impl From<Rule80A> for char {
    fn from(a: Rule80A) -> (r: char) {
        a.as_char()
    }
}

impl vstd::std_specs::convert::FromSpecImpl<Rule80A> for char {
    open spec fn obeys_from_spec() -> bool {
        true
    }

    open spec fn from_spec(a: Rule80A) -> char {
        a.spec_char()
    }
}

impl TryFrom<char> for Rule80A {
    type Error = DecodeError;

    fn try_from(v: char) -> (r: Result<Rule80A, DecodeError>) {
        Rule80A::from_char(v)
    }
}

impl vstd::std_specs::convert::TryFromSpecImpl<char> for Rule80A {
    open spec fn obeys_try_from_spec() -> bool {
        true
    }

    open spec fn try_from_spec(v: char) -> Result<Rule80A, DecodeError> {
        Rule80A::spec_decode(v)
    }
}

#[derive(Debug, Clone, Copy, PartialEq, Eq, Structural)]
pub enum Side {
    BUY,
    SELL,
    BUY_MINUS,
    SELL_PLUS,
    SELL_SHORT,
    SELL_SHORT_EXEMPT,
    UNDISCLOSED,
    CROSS,
    CROSS_SHORT,
}

impl Side {
    pub open spec fn spec_char(self) -> char {
        match self {
            Side::BUY => '1',
            Side::SELL => '2',
            Side::BUY_MINUS => '3',
            Side::SELL_PLUS => '4',
            Side::SELL_SHORT => '5',
            Side::SELL_SHORT_EXEMPT => '6',
            Side::UNDISCLOSED => '7',
            Side::CROSS => '8',
            Side::CROSS_SHORT => '9',
        }
    }

    pub open spec fn spec_from(v: char) -> Option<Side> {
        match v {
            '1' => Some(Side::BUY),
            '2' => Some(Side::SELL),
            '3' => Some(Side::BUY_MINUS),
            '4' => Some(Side::SELL_PLUS),
            '5' => Some(Side::SELL_SHORT),
            '6' => Some(Side::SELL_SHORT_EXEMPT),
            '7' => Some(Side::UNDISCLOSED),
            '8' => Some(Side::CROSS),
            '9' => Some(Side::CROSS_SHORT),
            _ => None,
        }
    }

    pub open spec fn spec_decode(c: char) -> Result<Side, DecodeError> {
        match Side::spec_from(c) {
            Some(x) => Ok(x),
            None => Err(DecodeError::UnknownChar(Tags::Side, c)),
        }
    }

    pub fn as_char(&self) -> (r: char)
        ensures
            r == self.spec_char(),
    {
        match self {
            Side::BUY => '1',
            Side::SELL => '2',
            Side::BUY_MINUS => '3',
            Side::SELL_PLUS => '4',
            Side::SELL_SHORT => '5',
            Side::SELL_SHORT_EXEMPT => '6',
            Side::UNDISCLOSED => '7',
            Side::CROSS => '8',
            Side::CROSS_SHORT => '9',
        }
    }

    pub fn from_char(c: char) -> (r: Result<Side, DecodeError>)
        ensures
            r == Side::spec_decode(c),
    {
        match c {
            '1' => Ok(Side::BUY),
            '2' => Ok(Side::SELL),
            '3' => Ok(Side::BUY_MINUS),
            '4' => Ok(Side::SELL_PLUS),
            '5' => Ok(Side::SELL_SHORT),
            '6' => Ok(Side::SELL_SHORT_EXEMPT),
            '7' => Ok(Side::UNDISCLOSED),
            '8' => Ok(Side::CROSS),
            '9' => Ok(Side::CROSS_SHORT),
            _ => Err(DecodeError::UnknownChar(Tags::Side, c)),
        }
    }

    /// The value as the one ASCII byte that stands for it on the wire.
    pub fn as_bytes(&self) -> (r: Vec<u8>)
        ensures
            r@ == seq![self.spec_char() as u8],
    {
        vec![self.as_char() as u8]
    }
}

impl From<Side> for char {
    fn from(a: Side) -> (r: char) {
        a.as_char()
    }
}

impl vstd::std_specs::convert::FromSpecImpl<Side> for char {
    open spec fn obeys_from_spec() -> bool {
        true
    }

    open spec fn from_spec(a: Side) -> char {
        a.spec_char()
    }
}

impl TryFrom<char> for Side {
    type Error = DecodeError;

    fn try_from(v: char) -> (r: Result<Side, DecodeError>) {
        Side::from_char(v)
    }
}

impl vstd::std_specs::convert::TryFromSpecImpl<char> for Side {
    open spec fn obeys_try_from_spec() -> bool {
        true
    }

    open spec fn try_from_spec(v: char) -> Result<Side, DecodeError> {
        Side::spec_decode(v)
    }
}

#[derive(Debug, Clone, Copy, PartialEq, Eq, Structural)]
pub enum TimeInForce {
    DAY,
    GOOD_TILL_CANCEL,
    AT_THE_OPENING,
    IMMEDIATE_OR_CANCEL,
    FILL_OR_KILL,
    GOOD_TILL_CROSSING,
    GOOD_TILL_DATE,
}

impl TimeInForce {
    pub open spec fn spec_char(self) -> char {
        match self {
            TimeInForce::DAY => '0',
            TimeInForce::GOOD_TILL_CANCEL => '1',
            TimeInForce::AT_THE_OPENING => '2',
            TimeInForce::IMMEDIATE_OR_CANCEL => '3',
            TimeInForce::FILL_OR_KILL => '4',
            TimeInForce::GOOD_TILL_CROSSING => '5',
            TimeInForce::GOOD_TILL_DATE => '6',
        }
    }

    pub open spec fn spec_from(v: char) -> Option<TimeInForce> {
        match v {
            '0' => Some(TimeInForce::DAY),
            '1' => Some(TimeInForce::GOOD_TILL_CANCEL),
            '2' => Some(TimeInForce::AT_THE_OPENING),
            '3' => Some(TimeInForce::IMMEDIATE_OR_CANCEL),
            '4' => Some(TimeInForce::FILL_OR_KILL),
            '5' => Some(TimeInForce::GOOD_TILL_CROSSING),
            '6' => Some(TimeInForce::GOOD_TILL_DATE),
            _ => None,
        }
    }

    pub open spec fn spec_decode(c: char) -> Result<TimeInForce, DecodeError> {
        match TimeInForce::spec_from(c) {
            Some(x) => Ok(x),
            None => Err(DecodeError::UnknownChar(Tags::TimeInForce, c)),
        }
    }

    pub fn as_char(&self) -> (r: char)
        ensures
            r == self.spec_char(),
    {
        match self {
            TimeInForce::DAY => '0',
            TimeInForce::GOOD_TILL_CANCEL => '1',
            TimeInForce::AT_THE_OPENING => '2',
            TimeInForce::IMMEDIATE_OR_CANCEL => '3',
            TimeInForce::FILL_OR_KILL => '4',
            TimeInForce::GOOD_TILL_CROSSING => '5',
            TimeInForce::GOOD_TILL_DATE => '6',
        }
    }

    pub fn from_char(c: char) -> (r: Result<TimeInForce, DecodeError>)
        ensures
            r == TimeInForce::spec_decode(c),
    {
        match c {
            '0' => Ok(TimeInForce::DAY),
            '1' => Ok(TimeInForce::GOOD_TILL_CANCEL),
            '2' => Ok(TimeInForce::AT_THE_OPENING),
            '3' => Ok(TimeInForce::IMMEDIATE_OR_CANCEL),
            '4' => Ok(TimeInForce::FILL_OR_KILL),
            '5' => Ok(TimeInForce::GOOD_TILL_CROSSING),
            '6' => Ok(TimeInForce::GOOD_TILL_DATE),
            _ => Err(DecodeError::UnknownChar(Tags::TimeInForce, c)),
        }
    }

    /// The value as the one ASCII byte that stands for it on the wire.
    pub fn as_bytes(&self) -> (r: Vec<u8>)
        ensures
            r@ == seq![self.spec_char() as u8],
    {
        vec![self.as_char() as u8]
    }
}

impl From<TimeInForce> for char {
    fn from(a: TimeInForce) -> (r: char) {
        a.as_char()
    }
}

impl vstd::std_specs::convert::FromSpecImpl<TimeInForce> for char {
    open spec fn obeys_from_spec() -> bool {
        true
    }

    open spec fn from_spec(a: TimeInForce) -> char {
        a.spec_char()
    }
}

impl TryFrom<char> for TimeInForce {
    type Error = DecodeError;

    fn try_from(v: char) -> (r: Result<TimeInForce, DecodeError>) {
        TimeInForce::from_char(v)
    }
}

impl vstd::std_specs::convert::TryFromSpecImpl<char> for TimeInForce {
    open spec fn obeys_try_from_spec() -> bool {
        true
    }

    open spec fn try_from_spec(v: char) -> Result<TimeInForce, DecodeError> {
        TimeInForce::spec_decode(v)
    }
}

#[derive(Debug, Clone, Copy, PartialEq, Eq, Structural)]
pub enum Urgency {
    NORMAL,
    FLASH,
    BACKGROUND,
}

impl Urgency {
    pub open spec fn spec_char(self) -> char {
        match self {
            Urgency::NORMAL => '0',
            Urgency::FLASH => '1',
            Urgency::BACKGROUND => '2',
        }
    }

    pub open spec fn spec_from(v: char) -> Option<Urgency> {
        match v {
            '0' => Some(Urgency::NORMAL),
            '1' => Some(Urgency::FLASH),
            '2' => Some(Urgency::BACKGROUND),
            _ => None,
        }
    }

    pub open spec fn spec_decode(c: char) -> Result<Urgency, DecodeError> {
        match Urgency::spec_from(c) {
            Some(x) => Ok(x),
            None => Err(DecodeError::UnknownChar(Tags::Urgency, c)),
        }
    }

    pub fn as_char(&self) -> (r: char)
        ensures
            r == self.spec_char(),
    {
        match self {
            Urgency::NORMAL => '0',
            Urgency::FLASH => '1',
            Urgency::BACKGROUND => '2',
        }
    }

    pub fn from_char(c: char) -> (r: Result<Urgency, DecodeError>)
        ensures
            r == Urgency::spec_decode(c),
    {
        match c {
            '0' => Ok(Urgency::NORMAL),
            '1' => Ok(Urgency::FLASH),
            '2' => Ok(Urgency::BACKGROUND),
            _ => Err(DecodeError::UnknownChar(Tags::Urgency, c)),
        }
    }

    /// The value as the one ASCII byte that stands for it on the wire.
    pub fn as_bytes(&self) -> (r: Vec<u8>)
        ensures
            r@ == seq![self.spec_char() as u8],
    {
        vec![self.as_char() as u8]
    }
}

impl From<Urgency> for char {
    fn from(a: Urgency) -> (r: char) {
        a.as_char()
    }
}

impl vstd::std_specs::convert::FromSpecImpl<Urgency> for char {
    open spec fn obeys_from_spec() -> bool {
        true
    }

    open spec fn from_spec(a: Urgency) -> char {
        a.spec_char()
    }
}

impl TryFrom<char> for Urgency {
    type Error = DecodeError;

    fn try_from(v: char) -> (r: Result<Urgency, DecodeError>) {
        Urgency::from_char(v)
    }
}

impl vstd::std_specs::convert::TryFromSpecImpl<char> for Urgency {
    open spec fn obeys_try_from_spec() -> bool {
        true
    }

    open spec fn try_from_spec(v: char) -> Result<Urgency, DecodeError> {
        Urgency::spec_decode(v)
    }
}

#[derive(Debug, Clone, Copy, PartialEq, Eq, Structural)]
pub enum SettlmntTyp {
    REGULAR,
    CASH,
    NEXT_DAY,
    T_PLUS_2,
    T_PLUS_3,
    T_PLUS_4,
    FUTURE,
    WHEN_ISSUED,
    SELLERS_OPTION,
    T_PLUS_5,
}

impl SettlmntTyp {
    pub open spec fn spec_char(self) -> char {
        match self {
            SettlmntTyp::REGULAR => '0',
            SettlmntTyp::CASH => '1',
            SettlmntTyp::NEXT_DAY => '2',
            SettlmntTyp::T_PLUS_2 => '3',
            SettlmntTyp::T_PLUS_3 => '4',
            SettlmntTyp::T_PLUS_4 => '5',
            SettlmntTyp::FUTURE => '6',
            SettlmntTyp::WHEN_ISSUED => '7',
            SettlmntTyp::SELLERS_OPTION => '8',
            SettlmntTyp::T_PLUS_5 => '9',
        }
    }

    pub open spec fn spec_from(v: char) -> Option<SettlmntTyp> {
        match v {
            '0' => Some(SettlmntTyp::REGULAR),
            '1' => Some(SettlmntTyp::CASH),
            '2' => Some(SettlmntTyp::NEXT_DAY),
            '3' => Some(SettlmntTyp::T_PLUS_2),
            '4' => Some(SettlmntTyp::T_PLUS_3),
            '5' => Some(SettlmntTyp::T_PLUS_4),
            '6' => Some(SettlmntTyp::FUTURE),
            '7' => Some(SettlmntTyp::WHEN_ISSUED),
            '8' => Some(SettlmntTyp::SELLERS_OPTION),
            '9' => Some(SettlmntTyp::T_PLUS_5),
            _ => None,
        }
    }

    pub open spec fn spec_decode(c: char) -> Result<SettlmntTyp, DecodeError> {
        match SettlmntTyp::spec_from(c) {
            Some(x) => Ok(x),
            None => Err(DecodeError::UnknownChar(Tags::SettlmntTyp, c)),
        }
    }

    pub fn as_char(&self) -> (r: char)
        ensures
            r == self.spec_char(),
    {
        match self {
            SettlmntTyp::REGULAR => '0',
            SettlmntTyp::CASH => '1',
            SettlmntTyp::NEXT_DAY => '2',
            SettlmntTyp::T_PLUS_2 => '3',
            SettlmntTyp::T_PLUS_3 => '4',
            SettlmntTyp::T_PLUS_4 => '5',
            SettlmntTyp::FUTURE => '6',
            SettlmntTyp::WHEN_ISSUED => '7',
            SettlmntTyp::SELLERS_OPTION => '8',
            SettlmntTyp::T_PLUS_5 => '9',
        }
    }

    pub fn from_char(c: char) -> (r: Result<SettlmntTyp, DecodeError>)
        ensures
            r == SettlmntTyp::spec_decode(c),
    {
        match c {
            '0' => Ok(SettlmntTyp::REGULAR),
            '1' => Ok(SettlmntTyp::CASH),
            '2' => Ok(SettlmntTyp::NEXT_DAY),
            '3' => Ok(SettlmntTyp::T_PLUS_2),
            '4' => Ok(SettlmntTyp::T_PLUS_3),
            '5' => Ok(SettlmntTyp::T_PLUS_4),
            '6' => Ok(SettlmntTyp::FUTURE),
            '7' => Ok(SettlmntTyp::WHEN_ISSUED),
            '8' => Ok(SettlmntTyp::SELLERS_OPTION),
            '9' => Ok(SettlmntTyp::T_PLUS_5),
            _ => Err(DecodeError::UnknownChar(Tags::SettlmntTyp, c)),
        }
    }

    /// The value as the one ASCII byte that stands for it on the wire.
    pub fn as_bytes(&self) -> (r: Vec<u8>)
        ensures
            r@ == seq![self.spec_char() as u8],
    {
        vec![self.as_char() as u8]
    }
}

impl From<SettlmntTyp> for char {
    fn from(a: SettlmntTyp) -> (r: char) {
        a.as_char()
    }
}

impl vstd::std_specs::convert::FromSpecImpl<SettlmntTyp> for char {
    open spec fn obeys_from_spec() -> bool {
        true
    }

    open spec fn from_spec(a: SettlmntTyp) -> char {
        a.spec_char()
    }
}

impl TryFrom<char> for SettlmntTyp {
    type Error = DecodeError;

    fn try_from(v: char) -> (r: Result<SettlmntTyp, DecodeError>) {
        SettlmntTyp::from_char(v)
    }
}

impl vstd::std_specs::convert::TryFromSpecImpl<char> for SettlmntTyp {
    open spec fn obeys_try_from_spec() -> bool {
        true
    }

    open spec fn try_from_spec(v: char) -> Result<SettlmntTyp, DecodeError> {
        SettlmntTyp::spec_decode(v)
    }
}

#[derive(Debug, Clone, Copy, PartialEq, Eq, Structural)]
pub enum AllocTransType {
    NEW,
    REPLACE,
    CANCEL,
    PRELIMINARY,
    CALCULATED,
    CALCULATED_WITHOUT_PRELIMINARY,
}

impl AllocTransType {
    pub open spec fn spec_char(self) -> char {
        match self {
            AllocTransType::NEW => '0',
            AllocTransType::REPLACE => '1',
            AllocTransType::CANCEL => '2',
            AllocTransType::PRELIMINARY => '3',
            AllocTransType::CALCULATED => '4',
            AllocTransType::CALCULATED_WITHOUT_PRELIMINARY => '5',
        }
    }

    pub open spec fn spec_from(v: char) -> Option<AllocTransType> {
        match v {
            '0' => Some(AllocTransType::NEW),
            '1' => Some(AllocTransType::REPLACE),
            '2' => Some(AllocTransType::CANCEL),
            '3' => Some(AllocTransType::PRELIMINARY),
            '4' => Some(AllocTransType::CALCULATED),
            '5' => Some(AllocTransType::CALCULATED_WITHOUT_PRELIMINARY),
            _ => None,
        }
    }

    pub open spec fn spec_decode(c: char) -> Result<AllocTransType, DecodeError> {
        match AllocTransType::spec_from(c) {
            Some(x) => Ok(x),
            None => Err(DecodeError::UnknownChar(Tags::AllocTransType, c)),
        }
    }

    pub fn as_char(&self) -> (r: char)
        ensures
            r == self.spec_char(),
    {
        match self {
            AllocTransType::NEW => '0',
            AllocTransType::REPLACE => '1',
            AllocTransType::CANCEL => '2',
            AllocTransType::PRELIMINARY => '3',
            AllocTransType::CALCULATED => '4',
            AllocTransType::CALCULATED_WITHOUT_PRELIMINARY => '5',
        }
    }

    pub fn from_char(c: char) -> (r: Result<AllocTransType, DecodeError>)
        ensures
            r == AllocTransType::spec_decode(c),
    {
        match c {
            '0' => Ok(AllocTransType::NEW),
            '1' => Ok(AllocTransType::REPLACE),
            '2' => Ok(AllocTransType::CANCEL),
            '3' => Ok(AllocTransType::PRELIMINARY),
            '4' => Ok(AllocTransType::CALCULATED),
            '5' => Ok(AllocTransType::CALCULATED_WITHOUT_PRELIMINARY),
            _ => Err(DecodeError::UnknownChar(Tags::AllocTransType, c)),
        }
    }

    /// The value as the one ASCII byte that stands for it on the wire.
    pub fn as_bytes(&self) -> (r: Vec<u8>)
        ensures
            r@ == seq![self.spec_char() as u8],
    {
        vec![self.as_char() as u8]
    }
}

impl From<AllocTransType> for char {
    fn from(a: AllocTransType) -> (r: char) {
        a.as_char()
    }
}

impl vstd::std_specs::convert::FromSpecImpl<AllocTransType> for char {
    open spec fn obeys_from_spec() -> bool {
        true
    }

    open spec fn from_spec(a: AllocTransType) -> char {
        a.spec_char()
    }
}

impl TryFrom<char> for AllocTransType {
    type Error = DecodeError;

    fn try_from(v: char) -> (r: Result<AllocTransType, DecodeError>) {
        AllocTransType::from_char(v)
    }
}

impl vstd::std_specs::convert::TryFromSpecImpl<char> for AllocTransType {
    open spec fn obeys_try_from_spec() -> bool {
        true
    }

    open spec fn try_from_spec(v: char) -> Result<AllocTransType, DecodeError> {
        AllocTransType::spec_decode(v)
    }
}

#[derive(Debug, Clone, Copy, PartialEq, Eq, Structural)]
pub enum OpenClose {
    CLOSE,
    OPEN,
}

impl OpenClose {
    pub open spec fn spec_char(self) -> char {
        match self {
            OpenClose::CLOSE => 'C',
            OpenClose::OPEN => 'O',
        }
    }

    pub open spec fn spec_from(v: char) -> Option<OpenClose> {
        match v {
            'C' => Some(OpenClose::CLOSE),
            'O' => Some(OpenClose::OPEN),
            _ => None,
        }
    }

    pub open spec fn spec_decode(c: char) -> Result<OpenClose, DecodeError> {
        match OpenClose::spec_from(c) {
            Some(x) => Ok(x),
            None => Err(DecodeError::UnknownChar(Tags::OpenClose, c)),
        }
    }

    pub fn as_char(&self) -> (r: char)
        ensures
            r == self.spec_char(),
    {
        match self {
            OpenClose::CLOSE => 'C',
            OpenClose::OPEN => 'O',
        }
    }

    pub fn from_char(c: char) -> (r: Result<OpenClose, DecodeError>)
        ensures
            r == OpenClose::spec_decode(c),
    {
        match c {
            'C' => Ok(OpenClose::CLOSE),
            'O' => Ok(OpenClose::OPEN),
            _ => Err(DecodeError::UnknownChar(Tags::OpenClose, c)),
        }
    }

    /// The value as the one ASCII byte that stands for it on the wire.
    pub fn as_bytes(&self) -> (r: Vec<u8>)
        ensures
            r@ == seq![self.spec_char() as u8],
    {
        vec![self.as_char() as u8]
    }
}

impl From<OpenClose> for char {
    fn from(a: OpenClose) -> (r: char) {
        a.as_char()
    }
}

impl vstd::std_specs::convert::FromSpecImpl<OpenClose> for char {
    open spec fn obeys_from_spec() -> bool {
        true
    }

    open spec fn from_spec(a: OpenClose) -> char {
        a.spec_char()
    }
}

impl TryFrom<char> for OpenClose {
    type Error = DecodeError;

    fn try_from(v: char) -> (r: Result<OpenClose, DecodeError>) {
        OpenClose::from_char(v)
    }
}

impl vstd::std_specs::convert::TryFromSpecImpl<char> for OpenClose {
    open spec fn obeys_try_from_spec() -> bool {
        true
    }

    open spec fn try_from_spec(v: char) -> Result<OpenClose, DecodeError> {
        OpenClose::spec_decode(v)
    }
}

#[derive(Debug, Clone, Copy, PartialEq, Eq, Structural)]
pub enum ProcessCode {
    REGULAR,
    SOFT_DOLLAR,
    STEP_IN,
    STEP_OUT,
    SOFT_DOLLAR_STEP_IN,
    SOFT_DOLLAR_STEP_OUT,
    PLAN_SPONSOR,
}

impl ProcessCode {
    pub open spec fn spec_char(self) -> char {
        match self {
            ProcessCode::REGULAR => '0',
            ProcessCode::SOFT_DOLLAR => '1',
            ProcessCode::STEP_IN => '2',
            ProcessCode::STEP_OUT => '3',
            ProcessCode::SOFT_DOLLAR_STEP_IN => '4',
            ProcessCode::SOFT_DOLLAR_STEP_OUT => '5',
            ProcessCode::PLAN_SPONSOR => '6',
        }
    }

    pub open spec fn spec_from(v: char) -> Option<ProcessCode> {
        match v {
            '0' => Some(ProcessCode::REGULAR),
            '1' => Some(ProcessCode::SOFT_DOLLAR),
            '2' => Some(ProcessCode::STEP_IN),
            '3' => Some(ProcessCode::STEP_OUT),
            '4' => Some(ProcessCode::SOFT_DOLLAR_STEP_IN),
            '5' => Some(ProcessCode::SOFT_DOLLAR_STEP_OUT),
            '6' => Some(ProcessCode::PLAN_SPONSOR),
            _ => None,
        }
    }

    pub open spec fn spec_decode(c: char) -> Result<ProcessCode, DecodeError> {
        match ProcessCode::spec_from(c) {
            Some(x) => Ok(x),
            None => Err(DecodeError::UnknownChar(Tags::ProcessCode, c)),
        }
    }

    pub fn as_char(&self) -> (r: char)
        ensures
            r == self.spec_char(),
    {
        match self {
            ProcessCode::REGULAR => '0',
            ProcessCode::SOFT_DOLLAR => '1',
            ProcessCode::STEP_IN => '2',
            ProcessCode::STEP_OUT => '3',
            ProcessCode::SOFT_DOLLAR_STEP_IN => '4',
            ProcessCode::SOFT_DOLLAR_STEP_OUT => '5',
            ProcessCode::PLAN_SPONSOR => '6',
        }
    }

    pub fn from_char(c: char) -> (r: Result<ProcessCode, DecodeError>)
        ensures
            r == ProcessCode::spec_decode(c),
    {
        match c {
            '0' => Ok(ProcessCode::REGULAR),
            '1' => Ok(ProcessCode::SOFT_DOLLAR),
            '2' => Ok(ProcessCode::STEP_IN),
            '3' => Ok(ProcessCode::STEP_OUT),
            '4' => Ok(ProcessCode::SOFT_DOLLAR_STEP_IN),
            '5' => Ok(ProcessCode::SOFT_DOLLAR_STEP_OUT),
            '6' => Ok(ProcessCode::PLAN_SPONSOR),
            _ => Err(DecodeError::UnknownChar(Tags::ProcessCode, c)),
        }
    }

    /// The value as the one ASCII byte that stands for it on the wire.
    pub fn as_bytes(&self) -> (r: Vec<u8>)
        ensures
            r@ == seq![self.spec_char() as u8],
    {
        vec![self.as_char() as u8]
    }
}

impl From<ProcessCode> for char {
    fn from(a: ProcessCode) -> (r: char) {
        a.as_char()
    }
}

impl vstd::std_specs::convert::FromSpecImpl<ProcessCode> for char {
    open spec fn obeys_from_spec() -> bool {
        true
    }

    open spec fn from_spec(a: ProcessCode) -> char {
        a.spec_char()
    }
}

impl TryFrom<char> for ProcessCode {
    type Error = DecodeError;

    fn try_from(v: char) -> (r: Result<ProcessCode, DecodeError>) {
        ProcessCode::from_char(v)
    }
}

impl vstd::std_specs::convert::TryFromSpecImpl<char> for ProcessCode {
    open spec fn obeys_try_from_spec() -> bool {
        true
    }

    open spec fn try_from_spec(v: char) -> Result<ProcessCode, DecodeError> {
        ProcessCode::spec_decode(v)
    }
}

#[derive(Debug, Clone, Copy, PartialEq, Eq, Structural)]
pub enum AllocStatus {
    ACCEPTED,
    REJECTED,
    PARTIAL_ACCEPT,
    RECEIVED,
}

impl AllocStatus {
    pub open spec fn spec_num(self) -> u8 {
        match self {
            AllocStatus::ACCEPTED => 0,
            AllocStatus::REJECTED => 1,
            AllocStatus::PARTIAL_ACCEPT => 2,
            AllocStatus::RECEIVED => 3,
        }
    }

    pub open spec fn spec_from(v: u8) -> Option<AllocStatus> {
        match v {
            0 => Some(AllocStatus::ACCEPTED),
            1 => Some(AllocStatus::REJECTED),
            2 => Some(AllocStatus::PARTIAL_ACCEPT),
            3 => Some(AllocStatus::RECEIVED),
            _ => None,
        }
    }

    pub open spec fn spec_decode(c: u8) -> Result<AllocStatus, DecodeError> {
        match AllocStatus::spec_from(c) {
            Some(x) => Ok(x),
            None => Err(DecodeError::UnknownInt(Tags::AllocStatus, c)),
        }
    }

    pub fn as_u8(&self) -> (r: u8)
        ensures
            r == self.spec_num(),
    {
        match self {
            AllocStatus::ACCEPTED => 0,
            AllocStatus::REJECTED => 1,
            AllocStatus::PARTIAL_ACCEPT => 2,
            AllocStatus::RECEIVED => 3,
        }
    }

    pub fn from_u8(c: u8) -> (r: Result<AllocStatus, DecodeError>)
        ensures
            r == AllocStatus::spec_decode(c),
    {
        match c {
            0 => Ok(AllocStatus::ACCEPTED),
            1 => Ok(AllocStatus::REJECTED),
            2 => Ok(AllocStatus::PARTIAL_ACCEPT),
            3 => Ok(AllocStatus::RECEIVED),
            _ => Err(DecodeError::UnknownInt(Tags::AllocStatus, c)),
        }
    }
}

impl TryFrom<u8> for AllocStatus {
    type Error = DecodeError;

    fn try_from(v: u8) -> (r: Result<AllocStatus, DecodeError>) {
        AllocStatus::from_u8(v)
    }
}

impl vstd::std_specs::convert::TryFromSpecImpl<u8> for AllocStatus {
    open spec fn obeys_try_from_spec() -> bool {
        true
    }

    open spec fn try_from_spec(v: u8) -> Result<AllocStatus, DecodeError> {
        AllocStatus::spec_decode(v)
    }
}

#[derive(Debug, Clone, Copy, PartialEq, Eq, Structural)]
pub enum AllocRejCode {
    UNKNOWN_ACCOUNT,
    INCORRECT_QUANTITY,
    INCORRECT_AVERAGE_PRICE,
    UNKNOWN_EXECUTING_BROKER_MNEMONIC,
    COMMISSION_DIFFERENCE,
    UNKNOWN_ORDERID,
    UNKNOWN_LISTID,
    OTHER,
}

impl AllocRejCode {
    pub open spec fn spec_num(self) -> u8 {
        match self {
            AllocRejCode::UNKNOWN_ACCOUNT => 0,
            AllocRejCode::INCORRECT_QUANTITY => 1,
            AllocRejCode::INCORRECT_AVERAGE_PRICE => 2,
            AllocRejCode::UNKNOWN_EXECUTING_BROKER_MNEMONIC => 3,
            AllocRejCode::COMMISSION_DIFFERENCE => 4,
            AllocRejCode::UNKNOWN_ORDERID => 5,
            AllocRejCode::UNKNOWN_LISTID => 6,
            AllocRejCode::OTHER => 7,
        }
    }

    pub open spec fn spec_from(v: u8) -> Option<AllocRejCode> {
        match v {
            0 => Some(AllocRejCode::UNKNOWN_ACCOUNT),
            1 => Some(AllocRejCode::INCORRECT_QUANTITY),
            2 => Some(AllocRejCode::INCORRECT_AVERAGE_PRICE),
            3 => Some(AllocRejCode::UNKNOWN_EXECUTING_BROKER_MNEMONIC),
            4 => Some(AllocRejCode::COMMISSION_DIFFERENCE),
            5 => Some(AllocRejCode::UNKNOWN_ORDERID),
            6 => Some(AllocRejCode::UNKNOWN_LISTID),
            7 => Some(AllocRejCode::OTHER),
            _ => None,
        }
    }

    pub open spec fn spec_decode(c: u8) -> Result<AllocRejCode, DecodeError> {
        match AllocRejCode::spec_from(c) {
            Some(x) => Ok(x),
            None => Err(DecodeError::UnknownInt(Tags::AllocRejCode, c)),
        }
    }

    pub fn as_u8(&self) -> (r: u8)
        ensures
            r == self.spec_num(),
    {
        match self {
            AllocRejCode::UNKNOWN_ACCOUNT => 0,
            AllocRejCode::INCORRECT_QUANTITY => 1,
            AllocRejCode::INCORRECT_AVERAGE_PRICE => 2,
            AllocRejCode::UNKNOWN_EXECUTING_BROKER_MNEMONIC => 3,
            AllocRejCode::COMMISSION_DIFFERENCE => 4,
            AllocRejCode::UNKNOWN_ORDERID => 5,
            AllocRejCode::UNKNOWN_LISTID => 6,
            AllocRejCode::OTHER => 7,
        }
    }

    pub fn from_u8(c: u8) -> (r: Result<AllocRejCode, DecodeError>)
        ensures
            r == AllocRejCode::spec_decode(c),
    {
        match c {
            0 => Ok(AllocRejCode::UNKNOWN_ACCOUNT),
            1 => Ok(AllocRejCode::INCORRECT_QUANTITY),
            2 => Ok(AllocRejCode::INCORRECT_AVERAGE_PRICE),
            3 => Ok(AllocRejCode::UNKNOWN_EXECUTING_BROKER_MNEMONIC),
            4 => Ok(AllocRejCode::COMMISSION_DIFFERENCE),
            5 => Ok(AllocRejCode::UNKNOWN_ORDERID),
            6 => Ok(AllocRejCode::UNKNOWN_LISTID),
            7 => Ok(AllocRejCode::OTHER),
            _ => Err(DecodeError::UnknownInt(Tags::AllocRejCode, c)),
        }
    }
}

impl TryFrom<u8> for AllocRejCode {
    type Error = DecodeError;

    fn try_from(v: u8) -> (r: Result<AllocRejCode, DecodeError>) {
        AllocRejCode::from_u8(v)
    }
}

impl vstd::std_specs::convert::TryFromSpecImpl<u8> for AllocRejCode {
    open spec fn obeys_try_from_spec() -> bool {
        true
    }

    open spec fn try_from_spec(v: u8) -> Result<AllocRejCode, DecodeError> {
        AllocRejCode::spec_decode(v)
    }
}

#[derive(Debug, Clone, Copy, PartialEq, Eq, Structural)]
pub enum EmailType {
    NEW,
    REPLY,
    ADMIN_REPLY,
}

impl EmailType {
    pub open spec fn spec_char(self) -> char {
        match self {
            EmailType::NEW => '0',
            EmailType::REPLY => '1',
            EmailType::ADMIN_REPLY => '2',
        }
    }

    pub open spec fn spec_from(v: char) -> Option<EmailType> {
        match v {
            '0' => Some(EmailType::NEW),
            '1' => Some(EmailType::REPLY),
            '2' => Some(EmailType::ADMIN_REPLY),
            _ => None,
        }
    }

    pub open spec fn spec_decode(c: char) -> Result<EmailType, DecodeError> {
        match EmailType::spec_from(c) {
            Some(x) => Ok(x),
            None => Err(DecodeError::UnknownChar(Tags::EmailType, c)),
        }
    }

    pub fn as_char(&self) -> (r: char)
        ensures
            r == self.spec_char(),
    {
        match self {
            EmailType::NEW => '0',
            EmailType::REPLY => '1',
            EmailType::ADMIN_REPLY => '2',
        }
    }

    pub fn from_char(c: char) -> (r: Result<EmailType, DecodeError>)
        ensures
            r == EmailType::spec_decode(c),
    {
        match c {
            '0' => Ok(EmailType::NEW),
            '1' => Ok(EmailType::REPLY),
            '2' => Ok(EmailType::ADMIN_REPLY),
            _ => Err(DecodeError::UnknownChar(Tags::EmailType, c)),
        }
    }

    /// The value as the one ASCII byte that stands for it on the wire.
    pub fn as_bytes(&self) -> (r: Vec<u8>)
        ensures
            r@ == seq![self.spec_char() as u8],
    {
        vec![self.as_char() as u8]
    }
}

impl From<EmailType> for char {
    fn from(a: EmailType) -> (r: char) {
        a.as_char()
    }
}

impl vstd::std_specs::convert::FromSpecImpl<EmailType> for char {
    open spec fn obeys_from_spec() -> bool {
        true
    }

    open spec fn from_spec(a: EmailType) -> char {
        a.spec_char()
    }
}

impl TryFrom<char> for EmailType {
    type Error = DecodeError;

    fn try_from(v: char) -> (r: Result<EmailType, DecodeError>) {
        EmailType::from_char(v)
    }
}

impl vstd::std_specs::convert::TryFromSpecImpl<char> for EmailType {
    open spec fn obeys_try_from_spec() -> bool {
        true
    }

    open spec fn try_from_spec(v: char) -> Result<EmailType, DecodeError> {
        EmailType::spec_decode(v)
    }
}

#[derive(Debug, Clone, Copy, PartialEq, Eq, Structural)]
pub enum PossResend {
    NO,
    YES,
}

impl PossResend {
    pub open spec fn spec_char(self) -> char {
        match self {
            PossResend::NO => 'N',
            PossResend::YES => 'Y',
        }
    }

    pub open spec fn spec_from(v: char) -> Option<PossResend> {
        match v {
            'N' => Some(PossResend::NO),
            'Y' => Some(PossResend::YES),
            _ => None,
        }
    }

    pub open spec fn spec_decode(c: char) -> Result<PossResend, DecodeError> {
        match PossResend::spec_from(c) {
            Some(x) => Ok(x),
            None => Err(DecodeError::UnknownChar(Tags::PossResend, c)),
        }
    }

    pub fn as_char(&self) -> (r: char)
        ensures
            r == self.spec_char(),
    {
        match self {
            PossResend::NO => 'N',
            PossResend::YES => 'Y',
        }
    }

    pub fn from_char(c: char) -> (r: Result<PossResend, DecodeError>)
        ensures
            r == PossResend::spec_decode(c),
    {
        match c {
            'N' => Ok(PossResend::NO),
            'Y' => Ok(PossResend::YES),
            _ => Err(DecodeError::UnknownChar(Tags::PossResend, c)),
        }
    }

    /// The value as the one ASCII byte that stands for it on the wire.
    pub fn as_bytes(&self) -> (r: Vec<u8>)
        ensures
            r@ == seq![self.spec_char() as u8],
    {
        vec![self.as_char() as u8]
    }
}

impl From<PossResend> for char {
    fn from(a: PossResend) -> (r: char) {
        a.as_char()
    }
}

impl vstd::std_specs::convert::FromSpecImpl<PossResend> for char {
    open spec fn obeys_from_spec() -> bool {
        true
    }

    open spec fn from_spec(a: PossResend) -> char {
        a.spec_char()
    }
}

impl TryFrom<char> for PossResend {
    type Error = DecodeError;

    fn try_from(v: char) -> (r: Result<PossResend, DecodeError>) {
        PossResend::from_char(v)
    }
}

impl vstd::std_specs::convert::TryFromSpecImpl<char> for PossResend {
    open spec fn obeys_try_from_spec() -> bool {
        true
    }

    open spec fn try_from_spec(v: char) -> Result<PossResend, DecodeError> {
        PossResend::spec_decode(v)
    }
}

#[derive(Debug, Clone, Copy, PartialEq, Eq, Structural)]
pub enum EncryptMethod {
    NONE,
    PKCS,
    DES,
    PKCS_DES,
    PGP_DES,
    PGP_DES_MD5,
    PEM_DES_MD5,
}

impl EncryptMethod {
    pub open spec fn spec_num(self) -> u8 {
        match self {
            EncryptMethod::NONE => 0,
            EncryptMethod::PKCS => 1,
            EncryptMethod::DES => 2,
            EncryptMethod::PKCS_DES => 3,
            EncryptMethod::PGP_DES => 4,
            EncryptMethod::PGP_DES_MD5 => 5,
            EncryptMethod::PEM_DES_MD5 => 6,
        }
    }

    pub open spec fn spec_from(v: u8) -> Option<EncryptMethod> {
        match v {
            0 => Some(EncryptMethod::NONE),
            1 => Some(EncryptMethod::PKCS),
            2 => Some(EncryptMethod::DES),
            3 => Some(EncryptMethod::PKCS_DES),
            4 => Some(EncryptMethod::PGP_DES),
            5 => Some(EncryptMethod::PGP_DES_MD5),
            6 => Some(EncryptMethod::PEM_DES_MD5),
            _ => None,
        }
    }

    pub open spec fn spec_decode(c: u8) -> Result<EncryptMethod, DecodeError> {
        match EncryptMethod::spec_from(c) {
            Some(x) => Ok(x),
            None => Err(DecodeError::UnknownInt(Tags::EncryptMethod, c)),
        }
    }

    pub fn as_u8(&self) -> (r: u8)
        ensures
            r == self.spec_num(),
    {
        match self {
            EncryptMethod::NONE => 0,
            EncryptMethod::PKCS => 1,
            EncryptMethod::DES => 2,
            EncryptMethod::PKCS_DES => 3,
            EncryptMethod::PGP_DES => 4,
            EncryptMethod::PGP_DES_MD5 => 5,
            EncryptMethod::PEM_DES_MD5 => 6,
        }
    }

    pub fn from_u8(c: u8) -> (r: Result<EncryptMethod, DecodeError>)
        ensures
            r == EncryptMethod::spec_decode(c),
    {
        match c {
            0 => Ok(EncryptMethod::NONE),
            1 => Ok(EncryptMethod::PKCS),
            2 => Ok(EncryptMethod::DES),
            3 => Ok(EncryptMethod::PKCS_DES),
            4 => Ok(EncryptMethod::PGP_DES),
            5 => Ok(EncryptMethod::PGP_DES_MD5),
            6 => Ok(EncryptMethod::PEM_DES_MD5),
            _ => Err(DecodeError::UnknownInt(Tags::EncryptMethod, c)),
        }
    }
}

impl TryFrom<u8> for EncryptMethod {
    type Error = DecodeError;

    fn try_from(v: u8) -> (r: Result<EncryptMethod, DecodeError>) {
        EncryptMethod::from_u8(v)
    }
}

impl vstd::std_specs::convert::TryFromSpecImpl<u8> for EncryptMethod {
    open spec fn obeys_try_from_spec() -> bool {
        true
    }

    open spec fn try_from_spec(v: u8) -> Result<EncryptMethod, DecodeError> {
        EncryptMethod::spec_decode(v)
    }
}

#[derive(Debug, Clone, Copy, PartialEq, Eq, Structural)]
pub enum CxlRejReason {
    TOO_LATE_TO_CANCEL,
    UNKNOWN_ORDER,
    BROKER_OPTION,
    ORDER_ALREADY_IN_PENDING_CANCEL_OR_PENDING_REPLACE_STATUS,
}

impl CxlRejReason {
    pub open spec fn spec_num(self) -> u8 {
        match self {
            CxlRejReason::TOO_LATE_TO_CANCEL => 0,
            CxlRejReason::UNKNOWN_ORDER => 1,
            CxlRejReason::BROKER_OPTION => 2,
            CxlRejReason::ORDER_ALREADY_IN_PENDING_CANCEL_OR_PENDING_REPLACE_STATUS => 3,
        }
    }

    pub open spec fn spec_from(v: u8) -> Option<CxlRejReason> {
        match v {
            0 => Some(CxlRejReason::TOO_LATE_TO_CANCEL),
            1 => Some(CxlRejReason::UNKNOWN_ORDER),
            2 => Some(CxlRejReason::BROKER_OPTION),
            3 => Some(CxlRejReason::ORDER_ALREADY_IN_PENDING_CANCEL_OR_PENDING_REPLACE_STATUS),
            _ => None,
        }
    }

    pub open spec fn spec_decode(c: u8) -> Result<CxlRejReason, DecodeError> {
        match CxlRejReason::spec_from(c) {
            Some(x) => Ok(x),
            None => Err(DecodeError::UnknownInt(Tags::CxlRejReason, c)),
        }
    }

    pub fn as_u8(&self) -> (r: u8)
        ensures
            r == self.spec_num(),
    {
        match self {
            CxlRejReason::TOO_LATE_TO_CANCEL => 0,
            CxlRejReason::UNKNOWN_ORDER => 1,
            CxlRejReason::BROKER_OPTION => 2,
            CxlRejReason::ORDER_ALREADY_IN_PENDING_CANCEL_OR_PENDING_REPLACE_STATUS => 3,
        }
    }

    pub fn from_u8(c: u8) -> (r: Result<CxlRejReason, DecodeError>)
        ensures
            r == CxlRejReason::spec_decode(c),
    {
        match c {
            0 => Ok(CxlRejReason::TOO_LATE_TO_CANCEL),
            1 => Ok(CxlRejReason::UNKNOWN_ORDER),
            2 => Ok(CxlRejReason::BROKER_OPTION),
            3 => Ok(CxlRejReason::ORDER_ALREADY_IN_PENDING_CANCEL_OR_PENDING_REPLACE_STATUS),
            _ => Err(DecodeError::UnknownInt(Tags::CxlRejReason, c)),
        }
    }
}

impl TryFrom<u8> for CxlRejReason {
    type Error = DecodeError;

    fn try_from(v: u8) -> (r: Result<CxlRejReason, DecodeError>) {
        CxlRejReason::from_u8(v)
    }
}

impl vstd::std_specs::convert::TryFromSpecImpl<u8> for CxlRejReason {
    open spec fn obeys_try_from_spec() -> bool {
        true
    }

    open spec fn try_from_spec(v: u8) -> Result<CxlRejReason, DecodeError> {
        CxlRejReason::spec_decode(v)
    }
}

#[derive(Debug, Clone, Copy, PartialEq, Eq, Structural)]
pub enum OrdRejReason {
    BROKER_OPTION,
    UNKNOWN_SYMBOL,
    EXCHANGE_CLOSED,
    ORDER_EXCEEDS_LIMIT,
    TOO_LATE_TO_ENTER,
    UNKNOWN_ORDER,
    DUPLICATE_ORDER,
    DUPLICATE_OF_A_VERBALLY_COMMUNICATED_ORDER,
    STALE_ORDER,
}

impl OrdRejReason {
    pub open spec fn spec_num(self) -> u8 {
        match self {
            OrdRejReason::BROKER_OPTION => 0,
            OrdRejReason::UNKNOWN_SYMBOL => 1,
            OrdRejReason::EXCHANGE_CLOSED => 2,
            OrdRejReason::ORDER_EXCEEDS_LIMIT => 3,
            OrdRejReason::TOO_LATE_TO_ENTER => 4,
            OrdRejReason::UNKNOWN_ORDER => 5,
            OrdRejReason::DUPLICATE_ORDER => 6,
            OrdRejReason::DUPLICATE_OF_A_VERBALLY_COMMUNICATED_ORDER => 7,
            OrdRejReason::STALE_ORDER => 8,
        }
    }

    pub open spec fn spec_from(v: u8) -> Option<OrdRejReason> {
        match v {
            0 => Some(OrdRejReason::BROKER_OPTION),
            1 => Some(OrdRejReason::UNKNOWN_SYMBOL),
            2 => Some(OrdRejReason::EXCHANGE_CLOSED),
            3 => Some(OrdRejReason::ORDER_EXCEEDS_LIMIT),
            4 => Some(OrdRejReason::TOO_LATE_TO_ENTER),
            5 => Some(OrdRejReason::UNKNOWN_ORDER),
            6 => Some(OrdRejReason::DUPLICATE_ORDER),
            7 => Some(OrdRejReason::DUPLICATE_OF_A_VERBALLY_COMMUNICATED_ORDER),
            8 => Some(OrdRejReason::STALE_ORDER),
            _ => None,
        }
    }

    pub open spec fn spec_decode(c: u8) -> Result<OrdRejReason, DecodeError> {
        match OrdRejReason::spec_from(c) {
            Some(x) => Ok(x),
            None => Err(DecodeError::UnknownInt(Tags::OrdRejReason, c)),
        }
    }

    pub fn as_u8(&self) -> (r: u8)
        ensures
            r == self.spec_num(),
    {
        match self {
            OrdRejReason::BROKER_OPTION => 0,
            OrdRejReason::UNKNOWN_SYMBOL => 1,
            OrdRejReason::EXCHANGE_CLOSED => 2,
            OrdRejReason::ORDER_EXCEEDS_LIMIT => 3,
            OrdRejReason::TOO_LATE_TO_ENTER => 4,
            OrdRejReason::UNKNOWN_ORDER => 5,
            OrdRejReason::DUPLICATE_ORDER => 6,
            OrdRejReason::DUPLICATE_OF_A_VERBALLY_COMMUNICATED_ORDER => 7,
            OrdRejReason::STALE_ORDER => 8,
        }
    }

    pub fn from_u8(c: u8) -> (r: Result<OrdRejReason, DecodeError>)
        ensures
            r == OrdRejReason::spec_decode(c),
    {
        match c {
            0 => Ok(OrdRejReason::BROKER_OPTION),
            1 => Ok(OrdRejReason::UNKNOWN_SYMBOL),
            2 => Ok(OrdRejReason::EXCHANGE_CLOSED),
            3 => Ok(OrdRejReason::ORDER_EXCEEDS_LIMIT),
            4 => Ok(OrdRejReason::TOO_LATE_TO_ENTER),
            5 => Ok(OrdRejReason::UNKNOWN_ORDER),
            6 => Ok(OrdRejReason::DUPLICATE_ORDER),
            7 => Ok(OrdRejReason::DUPLICATE_OF_A_VERBALLY_COMMUNICATED_ORDER),
            8 => Ok(OrdRejReason::STALE_ORDER),
            _ => Err(DecodeError::UnknownInt(Tags::OrdRejReason, c)),
        }
    }
}

impl TryFrom<u8> for OrdRejReason {
    type Error = DecodeError;

    fn try_from(v: u8) -> (r: Result<OrdRejReason, DecodeError>) {
        OrdRejReason::from_u8(v)
    }
}

impl vstd::std_specs::convert::TryFromSpecImpl<u8> for OrdRejReason {
    open spec fn obeys_try_from_spec() -> bool {
        true
    }

    open spec fn try_from_spec(v: u8) -> Result<OrdRejReason, DecodeError> {
        OrdRejReason::spec_decode(v)
    }
}

#[derive(Debug, Clone, Copy, PartialEq, Eq, Structural)]
pub enum IOIQualifier {
    ALL_OR_NONE,
    AT_THE_CLOSE,
    IN_TOUCH_WITH,
    LIMIT,
    MORE_BEHIND,
    AT_THE_OPEN,
    TAKING_A_POSITION,
    AT_THE_MARKET,
    READY_TO_TRADE,
    PORTFOLIO_SHOW_N,
    THROUGH_THE_DAY,
    VERSUS,
    INDICATION,
    CROSSING_OPPORTUNITY,
    AT_THE_MIDPOINT,
    PRE_OPEN,
}

impl IOIQualifier {
    pub open spec fn spec_char(self) -> char {
        match self {
            IOIQualifier::ALL_OR_NONE => 'A',
            IOIQualifier::AT_THE_CLOSE => 'C',
            IOIQualifier::IN_TOUCH_WITH => 'I',
            IOIQualifier::LIMIT => 'L',
            IOIQualifier::MORE_BEHIND => 'M',
            IOIQualifier::AT_THE_OPEN => 'O',
            IOIQualifier::TAKING_A_POSITION => 'P',
            IOIQualifier::AT_THE_MARKET => 'Q',
            IOIQualifier::READY_TO_TRADE => 'R',
            IOIQualifier::PORTFOLIO_SHOW_N => 'S',
            IOIQualifier::THROUGH_THE_DAY => 'T',
            IOIQualifier::VERSUS => 'V',
            IOIQualifier::INDICATION => 'W',
            IOIQualifier::CROSSING_OPPORTUNITY => 'X',
            IOIQualifier::AT_THE_MIDPOINT => 'Y',
            IOIQualifier::PRE_OPEN => 'Z',
        }
    }

    pub open spec fn spec_from(v: char) -> Option<IOIQualifier> {
        match v {
            'A' => Some(IOIQualifier::ALL_OR_NONE),
            'C' => Some(IOIQualifier::AT_THE_CLOSE),
            'I' => Some(IOIQualifier::IN_TOUCH_WITH),
            'L' => Some(IOIQualifier::LIMIT),
            'M' => Some(IOIQualifier::MORE_BEHIND),
            'O' => Some(IOIQualifier::AT_THE_OPEN),
            'P' => Some(IOIQualifier::TAKING_A_POSITION),
            'Q' => Some(IOIQualifier::AT_THE_MARKET),
            'R' => Some(IOIQualifier::READY_TO_TRADE),
            'S' => Some(IOIQualifier::PORTFOLIO_SHOW_N),
            'T' => Some(IOIQualifier::THROUGH_THE_DAY),
            'V' => Some(IOIQualifier::VERSUS),
            'W' => Some(IOIQualifier::INDICATION),
            'X' => Some(IOIQualifier::CROSSING_OPPORTUNITY),
            'Y' => Some(IOIQualifier::AT_THE_MIDPOINT),
            'Z' => Some(IOIQualifier::PRE_OPEN),
            _ => None,
        }
    }

    pub open spec fn spec_decode(c: char) -> Result<IOIQualifier, DecodeError> {
        match IOIQualifier::spec_from(c) {
            Some(x) => Ok(x),
            None => Err(DecodeError::UnknownChar(Tags::IOIQualifier, c)),
        }
    }

    pub fn as_char(&self) -> (r: char)
        ensures
            r == self.spec_char(),
    {
        match self {
            IOIQualifier::ALL_OR_NONE => 'A',
            IOIQualifier::AT_THE_CLOSE => 'C',
            IOIQualifier::IN_TOUCH_WITH => 'I',
            IOIQualifier::LIMIT => 'L',
            IOIQualifier::MORE_BEHIND => 'M',
            IOIQualifier::AT_THE_OPEN => 'O',
            IOIQualifier::TAKING_A_POSITION => 'P',
            IOIQualifier::AT_THE_MARKET => 'Q',
            IOIQualifier::READY_TO_TRADE => 'R',
            IOIQualifier::PORTFOLIO_SHOW_N => 'S',
            IOIQualifier::THROUGH_THE_DAY => 'T',
            IOIQualifier::VERSUS => 'V',
            IOIQualifier::INDICATION => 'W',
            IOIQualifier::CROSSING_OPPORTUNITY => 'X',
            IOIQualifier::AT_THE_MIDPOINT => 'Y',
            IOIQualifier::PRE_OPEN => 'Z',
        }
    }

    pub fn from_char(c: char) -> (r: Result<IOIQualifier, DecodeError>)
        ensures
            r == IOIQualifier::spec_decode(c),
    {
        match c {
            'A' => Ok(IOIQualifier::ALL_OR_NONE),
            'C' => Ok(IOIQualifier::AT_THE_CLOSE),
            'I' => Ok(IOIQualifier::IN_TOUCH_WITH),
            'L' => Ok(IOIQualifier::LIMIT),
            'M' => Ok(IOIQualifier::MORE_BEHIND),
            'O' => Ok(IOIQualifier::AT_THE_OPEN),
            'P' => Ok(IOIQualifier::TAKING_A_POSITION),
            'Q' => Ok(IOIQualifier::AT_THE_MARKET),
            'R' => Ok(IOIQualifier::READY_TO_TRADE),
            'S' => Ok(IOIQualifier::PORTFOLIO_SHOW_N),
            'T' => Ok(IOIQualifier::THROUGH_THE_DAY),
            'V' => Ok(IOIQualifier::VERSUS),
            'W' => Ok(IOIQualifier::INDICATION),
            'X' => Ok(IOIQualifier::CROSSING_OPPORTUNITY),
            'Y' => Ok(IOIQualifier::AT_THE_MIDPOINT),
            'Z' => Ok(IOIQualifier::PRE_OPEN),
            _ => Err(DecodeError::UnknownChar(Tags::IOIQualifier, c)),
        }
    }

    /// The value as the one ASCII byte that stands for it on the wire.
    pub fn as_bytes(&self) -> (r: Vec<u8>)
        ensures
            r@ == seq![self.spec_char() as u8],
    {
        vec![self.as_char() as u8]
    }
}

impl From<IOIQualifier> for char {
    fn from(a: IOIQualifier) -> (r: char) {
        a.as_char()
    }
}

impl vstd::std_specs::convert::FromSpecImpl<IOIQualifier> for char {
    open spec fn obeys_from_spec() -> bool {
        true
    }

    open spec fn from_spec(a: IOIQualifier) -> char {
        a.spec_char()
    }
}

impl TryFrom<char> for IOIQualifier {
    type Error = DecodeError;

    fn try_from(v: char) -> (r: Result<IOIQualifier, DecodeError>) {
        IOIQualifier::from_char(v)
    }
}

impl vstd::std_specs::convert::TryFromSpecImpl<char> for IOIQualifier {
    open spec fn obeys_try_from_spec() -> bool {
        true
    }

    open spec fn try_from_spec(v: char) -> Result<IOIQualifier, DecodeError> {
        IOIQualifier::spec_decode(v)
    }
}

#[derive(Debug, Clone, Copy, PartialEq, Eq, Structural)]
pub enum ReportToExch {
    NO,
    YES,
}

impl ReportToExch {
    pub open spec fn spec_char(self) -> char {
        match self {
            ReportToExch::NO => 'N',
            ReportToExch::YES => 'Y',
        }
    }

    pub open spec fn spec_from(v: char) -> Option<ReportToExch> {
        match v {
            'N' => Some(ReportToExch::NO),
            'Y' => Some(ReportToExch::YES),
            _ => None,
        }
    }

    pub open spec fn spec_decode(c: char) -> Result<ReportToExch, DecodeError> {
        match ReportToExch::spec_from(c) {
            Some(x) => Ok(x),
            None => Err(DecodeError::UnknownChar(Tags::ReportToExch, c)),
        }
    }

    pub fn as_char(&self) -> (r: char)
        ensures
            r == self.spec_char(),
    {
        match self {
            ReportToExch::NO => 'N',
            ReportToExch::YES => 'Y',
        }
    }

    pub fn from_char(c: char) -> (r: Result<ReportToExch, DecodeError>)
        ensures
            r == ReportToExch::spec_decode(c),
    {
        match c {
            'N' => Ok(ReportToExch::NO),
            'Y' => Ok(ReportToExch::YES),
            _ => Err(DecodeError::UnknownChar(Tags::ReportToExch, c)),
        }
    }

    /// The value as the one ASCII byte that stands for it on the wire.
    pub fn as_bytes(&self) -> (r: Vec<u8>)
        ensures
            r@ == seq![self.spec_char() as u8],
    {
        vec![self.as_char() as u8]
    }
}

impl From<ReportToExch> for char {
    fn from(a: ReportToExch) -> (r: char) {
        a.as_char()
    }
}

impl vstd::std_specs::convert::FromSpecImpl<ReportToExch> for char {
    open spec fn obeys_from_spec() -> bool {
        true
    }

    open spec fn from_spec(a: ReportToExch) -> char {
        a.spec_char()
    }
}

impl TryFrom<char> for ReportToExch {
    type Error = DecodeError;

    fn try_from(v: char) -> (r: Result<ReportToExch, DecodeError>) {
        ReportToExch::from_char(v)
    }
}

impl vstd::std_specs::convert::TryFromSpecImpl<char> for ReportToExch {
    open spec fn obeys_try_from_spec() -> bool {
        true
    }

    open spec fn try_from_spec(v: char) -> Result<ReportToExch, DecodeError> {
        ReportToExch::spec_decode(v)
    }
}

#[derive(Debug, Clone, Copy, PartialEq, Eq, Structural)]
pub enum LocateReqd {
    NO,
    YES,
}

impl LocateReqd {
    pub open spec fn spec_char(self) -> char {
        match self {
            LocateReqd::NO => 'N',
            LocateReqd::YES => 'Y',
        }
    }

    pub open spec fn spec_from(v: char) -> Option<LocateReqd> {
        match v {
            'N' => Some(LocateReqd::NO),
            'Y' => Some(LocateReqd::YES),
            _ => None,
        }
    }

    pub open spec fn spec_decode(c: char) -> Result<LocateReqd, DecodeError> {
        match LocateReqd::spec_from(c) {
            Some(x) => Ok(x),
            None => Err(DecodeError::UnknownChar(Tags::LocateReqd, c)),
        }
    }

    pub fn as_char(&self) -> (r: char)
        ensures
            r == self.spec_char(),
    {
        match self {
            LocateReqd::NO => 'N',
            LocateReqd::YES => 'Y',
        }
    }

    pub fn from_char(c: char) -> (r: Result<LocateReqd, DecodeError>)
        ensures
            r == LocateReqd::spec_decode(c),
    {
        match c {
            'N' => Ok(LocateReqd::NO),
            'Y' => Ok(LocateReqd::YES),
            _ => Err(DecodeError::UnknownChar(Tags::LocateReqd, c)),
        }
    }

    /// The value as the one ASCII byte that stands for it on the wire.
    pub fn as_bytes(&self) -> (r: Vec<u8>)
        ensures
            r@ == seq![self.spec_char() as u8],
    {
        vec![self.as_char() as u8]
    }
}

impl From<LocateReqd> for char {
    fn from(a: LocateReqd) -> (r: char) {
        a.as_char()
    }
}

impl vstd::std_specs::convert::FromSpecImpl<LocateReqd> for char {
    open spec fn obeys_from_spec() -> bool {
        true
    }

    open spec fn from_spec(a: LocateReqd) -> char {
        a.spec_char()
    }
}

impl TryFrom<char> for LocateReqd {
    type Error = DecodeError;

    fn try_from(v: char) -> (r: Result<LocateReqd, DecodeError>) {
        LocateReqd::from_char(v)
    }
}

impl vstd::std_specs::convert::TryFromSpecImpl<char> for LocateReqd {
    open spec fn obeys_try_from_spec() -> bool {
        true
    }

    open spec fn try_from_spec(v: char) -> Result<LocateReqd, DecodeError> {
        LocateReqd::spec_decode(v)
    }
}

#[derive(Debug, Clone, Copy, PartialEq, Eq, Structural)]
pub enum ForexReq {
    NO,
    YES,
}

impl ForexReq {
    pub open spec fn spec_char(self) -> char {
        match self {
            ForexReq::NO => 'N',
            ForexReq::YES => 'Y',
        }
    }

    pub open spec fn spec_from(v: char) -> Option<ForexReq> {
        match v {
            'N' => Some(ForexReq::NO),
            'Y' => Some(ForexReq::YES),
            _ => None,
        }
    }

    pub open spec fn spec_decode(c: char) -> Result<ForexReq, DecodeError> {
        match ForexReq::spec_from(c) {
            Some(x) => Ok(x),
            None => Err(DecodeError::UnknownChar(Tags::ForexReq, c)),
        }
    }

    pub fn as_char(&self) -> (r: char)
        ensures
            r == self.spec_char(),
    {
        match self {
            ForexReq::NO => 'N',
            ForexReq::YES => 'Y',
        }
    }

    pub fn from_char(c: char) -> (r: Result<ForexReq, DecodeError>)
        ensures
            r == ForexReq::spec_decode(c),
    {
        match c {
            'N' => Ok(ForexReq::NO),
            'Y' => Ok(ForexReq::YES),
            _ => Err(DecodeError::UnknownChar(Tags::ForexReq, c)),
        }
    }

    /// The value as the one ASCII byte that stands for it on the wire.
    pub fn as_bytes(&self) -> (r: Vec<u8>)
        ensures
            r@ == seq![self.spec_char() as u8],
    {
        vec![self.as_char() as u8]
    }
}

impl From<ForexReq> for char {
    fn from(a: ForexReq) -> (r: char) {
        a.as_char()
    }
}

impl vstd::std_specs::convert::FromSpecImpl<ForexReq> for char {
    open spec fn obeys_from_spec() -> bool {
        true
    }

    open spec fn from_spec(a: ForexReq) -> char {
        a.spec_char()
    }
}

impl TryFrom<char> for ForexReq {
    type Error = DecodeError;

    fn try_from(v: char) -> (r: Result<ForexReq, DecodeError>) {
        ForexReq::from_char(v)
    }
}

impl vstd::std_specs::convert::TryFromSpecImpl<char> for ForexReq {
    open spec fn obeys_try_from_spec() -> bool {
        true
    }

    open spec fn try_from_spec(v: char) -> Result<ForexReq, DecodeError> {
        ForexReq::spec_decode(v)
    }
}

#[derive(Debug, Clone, Copy, PartialEq, Eq, Structural)]
pub enum GapFillFlag {
    NO,
    YES,
}

impl GapFillFlag {
    pub open spec fn spec_char(self) -> char {
        match self {
            GapFillFlag::NO => 'N',
            GapFillFlag::YES => 'Y',
        }
    }

    pub open spec fn spec_from(v: char) -> Option<GapFillFlag> {
        match v {
            'N' => Some(GapFillFlag::NO),
            'Y' => Some(GapFillFlag::YES),
            _ => None,
        }
    }

    pub open spec fn spec_decode(c: char) -> Result<GapFillFlag, DecodeError> {
        match GapFillFlag::spec_from(c) {
            Some(x) => Ok(x),
            None => Err(DecodeError::UnknownChar(Tags::GapFillFlag, c)),
        }
    }

    pub fn as_char(&self) -> (r: char)
        ensures
            r == self.spec_char(),
    {
        match self {
            GapFillFlag::NO => 'N',
            GapFillFlag::YES => 'Y',
        }
    }

    pub fn from_char(c: char) -> (r: Result<GapFillFlag, DecodeError>)
        ensures
            r == GapFillFlag::spec_decode(c),
    {
        match c {
            'N' => Ok(GapFillFlag::NO),
            'Y' => Ok(GapFillFlag::YES),
            _ => Err(DecodeError::UnknownChar(Tags::GapFillFlag, c)),
        }
    }

    /// The value as the one ASCII byte that stands for it on the wire.
    pub fn as_bytes(&self) -> (r: Vec<u8>)
        ensures
            r@ == seq![self.spec_char() as u8],
    {
        vec![self.as_char() as u8]
    }
}

impl From<GapFillFlag> for char {
    fn from(a: GapFillFlag) -> (r: char) {
        a.as_char()
    }
}

impl vstd::std_specs::convert::FromSpecImpl<GapFillFlag> for char {
    open spec fn obeys_from_spec() -> bool {
        true
    }

    open spec fn from_spec(a: GapFillFlag) -> char {
        a.spec_char()
    }
}

impl TryFrom<char> for GapFillFlag {
    type Error = DecodeError;

    fn try_from(v: char) -> (r: Result<GapFillFlag, DecodeError>) {
        GapFillFlag::from_char(v)
    }
}

impl vstd::std_specs::convert::TryFromSpecImpl<char> for GapFillFlag {
    open spec fn obeys_try_from_spec() -> bool {
        true
    }

    open spec fn try_from_spec(v: char) -> Result<GapFillFlag, DecodeError> {
        GapFillFlag::spec_decode(v)
    }
}

#[derive(Debug, Clone, Copy, PartialEq, Eq, Structural)]
pub enum DKReason {
    UNKNOWN_SYMBOL,
    WRONG_SIDE,
    QUANTITY_EXCEEDS_ORDER,
    NO_MATCHING_ORDER,
    PRICE_EXCEEDS_LIMIT,
    OTHER,
}

impl DKReason {
    pub open spec fn spec_char(self) -> char {
        match self {
            DKReason::UNKNOWN_SYMBOL => 'A',
            DKReason::WRONG_SIDE => 'B',
            DKReason::QUANTITY_EXCEEDS_ORDER => 'C',
            DKReason::NO_MATCHING_ORDER => 'D',
            DKReason::PRICE_EXCEEDS_LIMIT => 'E',
            DKReason::OTHER => 'Z',
        }
    }

    pub open spec fn spec_from(v: char) -> Option<DKReason> {
        match v {
            'A' => Some(DKReason::UNKNOWN_SYMBOL),
            'B' => Some(DKReason::WRONG_SIDE),
            'C' => Some(DKReason::QUANTITY_EXCEEDS_ORDER),
            'D' => Some(DKReason::NO_MATCHING_ORDER),
            'E' => Some(DKReason::PRICE_EXCEEDS_LIMIT),
            'Z' => Some(DKReason::OTHER),
            _ => None,
        }
    }

    pub open spec fn spec_decode(c: char) -> Result<DKReason, DecodeError> {
        match DKReason::spec_from(c) {
            Some(x) => Ok(x),
            None => Err(DecodeError::UnknownChar(Tags::DKReason, c)),
        }
    }

    pub fn as_char(&self) -> (r: char)
        ensures
            r == self.spec_char(),
    {
        match self {
            DKReason::UNKNOWN_SYMBOL => 'A',
            DKReason::WRONG_SIDE => 'B',
            DKReason::QUANTITY_EXCEEDS_ORDER => 'C',
            DKReason::NO_MATCHING_ORDER => 'D',
            DKReason::PRICE_EXCEEDS_LIMIT => 'E',
            DKReason::OTHER => 'Z',
        }
    }

    pub fn from_char(c: char) -> (r: Result<DKReason, DecodeError>)
        ensures
            r == DKReason::spec_decode(c),
    {
        match c {
            'A' => Ok(DKReason::UNKNOWN_SYMBOL),
            'B' => Ok(DKReason::WRONG_SIDE),
            'C' => Ok(DKReason::QUANTITY_EXCEEDS_ORDER),
            'D' => Ok(DKReason::NO_MATCHING_ORDER),
            'E' => Ok(DKReason::PRICE_EXCEEDS_LIMIT),
            'Z' => Ok(DKReason::OTHER),
            _ => Err(DecodeError::UnknownChar(Tags::DKReason, c)),
        }
    }

    /// The value as the one ASCII byte that stands for it on the wire.
    pub fn as_bytes(&self) -> (r: Vec<u8>)
        ensures
            r@ == seq![self.spec_char() as u8],
    {
        vec![self.as_char() as u8]
    }
}

impl From<DKReason> for char {
    fn from(a: DKReason) -> (r: char) {
        a.as_char()
    }
}

impl vstd::std_specs::convert::FromSpecImpl<DKReason> for char {
    open spec fn obeys_from_spec() -> bool {
        true
    }

    open spec fn from_spec(a: DKReason) -> char {
        a.spec_char()
    }
}

impl TryFrom<char> for DKReason {
    type Error = DecodeError;

    fn try_from(v: char) -> (r: Result<DKReason, DecodeError>) {
        DKReason::from_char(v)
    }
}

impl vstd::std_specs::convert::TryFromSpecImpl<char> for DKReason {
    open spec fn obeys_try_from_spec() -> bool {
        true
    }

    open spec fn try_from_spec(v: char) -> Result<DKReason, DecodeError> {
        DKReason::spec_decode(v)
    }
}

#[derive(Debug, Clone, Copy, PartialEq, Eq, Structural)]
pub enum IOINaturalFlag {
    NO,
    YES,
}

impl IOINaturalFlag {
    pub open spec fn spec_char(self) -> char {
        match self {
            IOINaturalFlag::NO => 'N',
            IOINaturalFlag::YES => 'Y',
        }
    }

    pub open spec fn spec_from(v: char) -> Option<IOINaturalFlag> {
        match v {
            'N' => Some(IOINaturalFlag::NO),
            'Y' => Some(IOINaturalFlag::YES),
            _ => None,
        }
    }

    pub open spec fn spec_decode(c: char) -> Result<IOINaturalFlag, DecodeError> {
        match IOINaturalFlag::spec_from(c) {
            Some(x) => Ok(x),
            None => Err(DecodeError::UnknownChar(Tags::IOINaturalFlag, c)),
        }
    }

    pub fn as_char(&self) -> (r: char)
        ensures
            r == self.spec_char(),
    {
        match self {
            IOINaturalFlag::NO => 'N',
            IOINaturalFlag::YES => 'Y',
        }
    }

    pub fn from_char(c: char) -> (r: Result<IOINaturalFlag, DecodeError>)
        ensures
            r == IOINaturalFlag::spec_decode(c),
    {
        match c {
            'N' => Ok(IOINaturalFlag::NO),
            'Y' => Ok(IOINaturalFlag::YES),
            _ => Err(DecodeError::UnknownChar(Tags::IOINaturalFlag, c)),
        }
    }

    /// The value as the one ASCII byte that stands for it on the wire.
    pub fn as_bytes(&self) -> (r: Vec<u8>)
        ensures
            r@ == seq![self.spec_char() as u8],
    {
        vec![self.as_char() as u8]
    }
}

impl From<IOINaturalFlag> for char {
    fn from(a: IOINaturalFlag) -> (r: char) {
        a.as_char()
    }
}

impl vstd::std_specs::convert::FromSpecImpl<IOINaturalFlag> for char {
    open spec fn obeys_from_spec() -> bool {
        true
    }

    open spec fn from_spec(a: IOINaturalFlag) -> char {
        a.spec_char()
    }
}

impl TryFrom<char> for IOINaturalFlag {
    type Error = DecodeError;

    fn try_from(v: char) -> (r: Result<IOINaturalFlag, DecodeError>) {
        IOINaturalFlag::from_char(v)
    }
}

impl vstd::std_specs::convert::TryFromSpecImpl<char> for IOINaturalFlag {
    open spec fn obeys_try_from_spec() -> bool {
        true
    }

    open spec fn try_from_spec(v: char) -> Result<IOINaturalFlag, DecodeError> {
        IOINaturalFlag::spec_decode(v)
    }
}

#[derive(Debug, Clone, Copy, PartialEq, Eq, Structural)]
pub enum MiscFeeType {
    REGULATORY,
    TAX,
    LOCAL_COMMISSION,
    EXCHANGE_FEES,
    STAMP,
    LEVY,
    OTHER,
    MARKUP,
    CONSUMPTION_TAX,
}

impl MiscFeeType {
    pub open spec fn spec_char(self) -> char {
        match self {
            MiscFeeType::REGULATORY => '1',
            MiscFeeType::TAX => '2',
            MiscFeeType::LOCAL_COMMISSION => '3',
            MiscFeeType::EXCHANGE_FEES => '4',
            MiscFeeType::STAMP => '5',
            MiscFeeType::LEVY => '6',
            MiscFeeType::OTHER => '7',
            MiscFeeType::MARKUP => '8',
            MiscFeeType::CONSUMPTION_TAX => '9',
        }
    }

    pub open spec fn spec_from(v: char) -> Option<MiscFeeType> {
        match v {
            '1' => Some(MiscFeeType::REGULATORY),
            '2' => Some(MiscFeeType::TAX),
            '3' => Some(MiscFeeType::LOCAL_COMMISSION),
            '4' => Some(MiscFeeType::EXCHANGE_FEES),
            '5' => Some(MiscFeeType::STAMP),
            '6' => Some(MiscFeeType::LEVY),
            '7' => Some(MiscFeeType::OTHER),
            '8' => Some(MiscFeeType::MARKUP),
            '9' => Some(MiscFeeType::CONSUMPTION_TAX),
            _ => None,
        }
    }

    pub open spec fn spec_decode(c: char) -> Result<MiscFeeType, DecodeError> {
        match MiscFeeType::spec_from(c) {
            Some(x) => Ok(x),
            None => Err(DecodeError::UnknownChar(Tags::MiscFeeType, c)),
        }
    }

    pub fn as_char(&self) -> (r: char)
        ensures
            r == self.spec_char(),
    {
        match self {
            MiscFeeType::REGULATORY => '1',
            MiscFeeType::TAX => '2',
            MiscFeeType::LOCAL_COMMISSION => '3',
            MiscFeeType::EXCHANGE_FEES => '4',
            MiscFeeType::STAMP => '5',
            MiscFeeType::LEVY => '6',
            MiscFeeType::OTHER => '7',
            MiscFeeType::MARKUP => '8',
            MiscFeeType::CONSUMPTION_TAX => '9',
        }
    }

    pub fn from_char(c: char) -> (r: Result<MiscFeeType, DecodeError>)
        ensures
            r == MiscFeeType::spec_decode(c),
    {
        match c {
            '1' => Ok(MiscFeeType::REGULATORY),
            '2' => Ok(MiscFeeType::TAX),
            '3' => Ok(MiscFeeType::LOCAL_COMMISSION),
            '4' => Ok(MiscFeeType::EXCHANGE_FEES),
            '5' => Ok(MiscFeeType::STAMP),
            '6' => Ok(MiscFeeType::LEVY),
            '7' => Ok(MiscFeeType::OTHER),
            '8' => Ok(MiscFeeType::MARKUP),
            '9' => Ok(MiscFeeType::CONSUMPTION_TAX),
            _ => Err(DecodeError::UnknownChar(Tags::MiscFeeType, c)),
        }
    }

    /// The value as the one ASCII byte that stands for it on the wire.
    pub fn as_bytes(&self) -> (r: Vec<u8>)
        ensures
            r@ == seq![self.spec_char() as u8],
    {
        vec![self.as_char() as u8]
    }
}

impl From<MiscFeeType> for char {
    fn from(a: MiscFeeType) -> (r: char) {
        a.as_char()
    }
}

impl vstd::std_specs::convert::FromSpecImpl<MiscFeeType> for char {
    open spec fn obeys_from_spec() -> bool {
        true
    }

    open spec fn from_spec(a: MiscFeeType) -> char {
        a.spec_char()
    }
}

impl TryFrom<char> for MiscFeeType {
    type Error = DecodeError;

    fn try_from(v: char) -> (r: Result<MiscFeeType, DecodeError>) {
        MiscFeeType::from_char(v)
    }
}

impl vstd::std_specs::convert::TryFromSpecImpl<char> for MiscFeeType {
    open spec fn obeys_try_from_spec() -> bool {
        true
    }

    open spec fn try_from_spec(v: char) -> Result<MiscFeeType, DecodeError> {
        MiscFeeType::spec_decode(v)
    }
}

#[derive(Debug, Clone, Copy, PartialEq, Eq, Structural)]
pub enum ResetSeqNumFlag {
    NO,
    YES,
}

impl ResetSeqNumFlag {
    pub open spec fn spec_char(self) -> char {
        match self {
            ResetSeqNumFlag::NO => 'N',
            ResetSeqNumFlag::YES => 'Y',
        }
    }

    pub open spec fn spec_from(v: char) -> Option<ResetSeqNumFlag> {
        match v {
            'N' => Some(ResetSeqNumFlag::NO),
            'Y' => Some(ResetSeqNumFlag::YES),
            _ => None,
        }
    }

    pub open spec fn spec_decode(c: char) -> Result<ResetSeqNumFlag, DecodeError> {
        match ResetSeqNumFlag::spec_from(c) {
            Some(x) => Ok(x),
            None => Err(DecodeError::UnknownChar(Tags::ResetSeqNumFlag, c)),
        }
    }

    pub fn as_char(&self) -> (r: char)
        ensures
            r == self.spec_char(),
    {
        match self {
            ResetSeqNumFlag::NO => 'N',
            ResetSeqNumFlag::YES => 'Y',
        }
    }

    pub fn from_char(c: char) -> (r: Result<ResetSeqNumFlag, DecodeError>)
        ensures
            r == ResetSeqNumFlag::spec_decode(c),
    {
        match c {
            'N' => Ok(ResetSeqNumFlag::NO),
            'Y' => Ok(ResetSeqNumFlag::YES),
            _ => Err(DecodeError::UnknownChar(Tags::ResetSeqNumFlag, c)),
        }
    }

    /// The value as the one ASCII byte that stands for it on the wire.
    pub fn as_bytes(&self) -> (r: Vec<u8>)
        ensures
            r@ == seq![self.spec_char() as u8],
    {
        vec![self.as_char() as u8]
    }
}

impl From<ResetSeqNumFlag> for char {
    fn from(a: ResetSeqNumFlag) -> (r: char) {
        a.as_char()
    }
}

impl vstd::std_specs::convert::FromSpecImpl<ResetSeqNumFlag> for char {
    open spec fn obeys_from_spec() -> bool {
        true
    }

    open spec fn from_spec(a: ResetSeqNumFlag) -> char {
        a.spec_char()
    }
}

impl TryFrom<char> for ResetSeqNumFlag {
    type Error = DecodeError;

    fn try_from(v: char) -> (r: Result<ResetSeqNumFlag, DecodeError>) {
        ResetSeqNumFlag::from_char(v)
    }
}

impl vstd::std_specs::convert::TryFromSpecImpl<char> for ResetSeqNumFlag {
    open spec fn obeys_try_from_spec() -> bool {
        true
    }

    open spec fn try_from_spec(v: char) -> Result<ResetSeqNumFlag, DecodeError> {
        ResetSeqNumFlag::spec_decode(v)
    }
}

#[derive(Debug, Clone, Copy, PartialEq, Eq, Structural)]
pub enum ExecType {
    NEW,
    PARTIAL_FILL,
    FILL,
    DONE_FOR_DAY,
    CANCELED,
    REPLACE,
    PENDING_CANCEL,
    STOPPED,
    REJECTED,
    SUSPENDED,
    PENDING_NEW,
    CALCULATED,
    EXPIRED,
    RESTATED,
    PENDING_REPLACE,
}

impl ExecType {
    pub open spec fn spec_char(self) -> char {
        match self {
            ExecType::NEW => '0',
            ExecType::PARTIAL_FILL => '1',
            ExecType::FILL => '2',
            ExecType::DONE_FOR_DAY => '3',
            ExecType::CANCELED => '4',
            ExecType::REPLACE => '5',
            ExecType::PENDING_CANCEL => '6',
            ExecType::STOPPED => '7',
            ExecType::REJECTED => '8',
            ExecType::SUSPENDED => '9',
            ExecType::PENDING_NEW => 'A',
            ExecType::CALCULATED => 'B',
            ExecType::EXPIRED => 'C',
            ExecType::RESTATED => 'D',
            ExecType::PENDING_REPLACE => 'E',
        }
    }

    pub open spec fn spec_from(v: char) -> Option<ExecType> {
        match v {
            '0' => Some(ExecType::NEW),
            '1' => Some(ExecType::PARTIAL_FILL),
            '2' => Some(ExecType::FILL),
            '3' => Some(ExecType::DONE_FOR_DAY),
            '4' => Some(ExecType::CANCELED),
            '5' => Some(ExecType::REPLACE),
            '6' => Some(ExecType::PENDING_CANCEL),
            '7' => Some(ExecType::STOPPED),
            '8' => Some(ExecType::REJECTED),
            '9' => Some(ExecType::SUSPENDED),
            'A' => Some(ExecType::PENDING_NEW),
            'B' => Some(ExecType::CALCULATED),
            'C' => Some(ExecType::EXPIRED),
            'D' => Some(ExecType::RESTATED),
            'E' => Some(ExecType::PENDING_REPLACE),
            _ => None,
        }
    }

    pub open spec fn spec_decode(c: char) -> Result<ExecType, DecodeError> {
        match ExecType::spec_from(c) {
            Some(x) => Ok(x),
            None => Err(DecodeError::UnknownChar(Tags::ExecType, c)),
        }
    }

    pub fn as_char(&self) -> (r: char)
        ensures
            r == self.spec_char(),
    {
        match self {
            ExecType::NEW => '0',
            ExecType::PARTIAL_FILL => '1',
            ExecType::FILL => '2',
            ExecType::DONE_FOR_DAY => '3',
            ExecType::CANCELED => '4',
            ExecType::REPLACE => '5',
            ExecType::PENDING_CANCEL => '6',
            ExecType::STOPPED => '7',
            ExecType::REJECTED => '8',
            ExecType::SUSPENDED => '9',
            ExecType::PENDING_NEW => 'A',
            ExecType::CALCULATED => 'B',
            ExecType::EXPIRED => 'C',
            ExecType::RESTATED => 'D',
            ExecType::PENDING_REPLACE => 'E',
        }
    }

    pub fn from_char(c: char) -> (r: Result<ExecType, DecodeError>)
        ensures
            r == ExecType::spec_decode(c),
    {
        match c {
            '0' => Ok(ExecType::NEW),
            '1' => Ok(ExecType::PARTIAL_FILL),
            '2' => Ok(ExecType::FILL),
            '3' => Ok(ExecType::DONE_FOR_DAY),
            '4' => Ok(ExecType::CANCELED),
            '5' => Ok(ExecType::REPLACE),
            '6' => Ok(ExecType::PENDING_CANCEL),
            '7' => Ok(ExecType::STOPPED),
            '8' => Ok(ExecType::REJECTED),
            '9' => Ok(ExecType::SUSPENDED),
            'A' => Ok(ExecType::PENDING_NEW),
            'B' => Ok(ExecType::CALCULATED),
            'C' => Ok(ExecType::EXPIRED),
            'D' => Ok(ExecType::RESTATED),
            'E' => Ok(ExecType::PENDING_REPLACE),
            _ => Err(DecodeError::UnknownChar(Tags::ExecType, c)),
        }
    }

    /// The value as the one ASCII byte that stands for it on the wire.
    pub fn as_bytes(&self) -> (r: Vec<u8>)
        ensures
            r@ == seq![self.spec_char() as u8],
    {
        vec![self.as_char() as u8]
    }
}

impl From<ExecType> for char {
    fn from(a: ExecType) -> (r: char) {
        a.as_char()
    }
}

impl vstd::std_specs::convert::FromSpecImpl<ExecType> for char {
    open spec fn obeys_from_spec() -> bool {
        true
    }

    open spec fn from_spec(a: ExecType) -> char {
        a.spec_char()
    }
}

impl TryFrom<char> for ExecType {
    type Error = DecodeError;

    fn try_from(v: char) -> (r: Result<ExecType, DecodeError>) {
        ExecType::from_char(v)
    }
}

impl vstd::std_specs::convert::TryFromSpecImpl<char> for ExecType {
    open spec fn obeys_try_from_spec() -> bool {
        true
    }

    open spec fn try_from_spec(v: char) -> Result<ExecType, DecodeError> {
        ExecType::spec_decode(v)
    }
}

#[derive(Debug, Clone, Copy, PartialEq, Eq, Structural)]
pub enum SettlCurrFxRateCalc {
    MULTIPLY,
    DIVIDE,
}

impl SettlCurrFxRateCalc {
    pub open spec fn spec_char(self) -> char {
        match self {
            SettlCurrFxRateCalc::MULTIPLY => 'M',
            SettlCurrFxRateCalc::DIVIDE => 'D',
        }
    }

    pub open spec fn spec_from(v: char) -> Option<SettlCurrFxRateCalc> {
        match v {
            'M' => Some(SettlCurrFxRateCalc::MULTIPLY),
            'D' => Some(SettlCurrFxRateCalc::DIVIDE),
            _ => None,
        }
    }

    pub open spec fn spec_decode(c: char) -> Result<SettlCurrFxRateCalc, DecodeError> {
        match SettlCurrFxRateCalc::spec_from(c) {
            Some(x) => Ok(x),
            None => Err(DecodeError::UnknownChar(Tags::SettlCurrFxRateCalc, c)),
        }
    }

    pub fn as_char(&self) -> (r: char)
        ensures
            r == self.spec_char(),
    {
        match self {
            SettlCurrFxRateCalc::MULTIPLY => 'M',
            SettlCurrFxRateCalc::DIVIDE => 'D',
        }
    }

    pub fn from_char(c: char) -> (r: Result<SettlCurrFxRateCalc, DecodeError>)
        ensures
            r == SettlCurrFxRateCalc::spec_decode(c),
    {
        match c {
            'M' => Ok(SettlCurrFxRateCalc::MULTIPLY),
            'D' => Ok(SettlCurrFxRateCalc::DIVIDE),
            _ => Err(DecodeError::UnknownChar(Tags::SettlCurrFxRateCalc, c)),
        }
    }

    /// The value as the one ASCII byte that stands for it on the wire.
    pub fn as_bytes(&self) -> (r: Vec<u8>)
        ensures
            r@ == seq![self.spec_char() as u8],
    {
        vec![self.as_char() as u8]
    }
}

impl From<SettlCurrFxRateCalc> for char {
    fn from(a: SettlCurrFxRateCalc) -> (r: char) {
        a.as_char()
    }
}

impl vstd::std_specs::convert::FromSpecImpl<SettlCurrFxRateCalc> for char {
    open spec fn obeys_from_spec() -> bool {
        true
    }

    open spec fn from_spec(a: SettlCurrFxRateCalc) -> char {
        a.spec_char()
    }
}

impl TryFrom<char> for SettlCurrFxRateCalc {
    type Error = DecodeError;

    fn try_from(v: char) -> (r: Result<SettlCurrFxRateCalc, DecodeError>) {
        SettlCurrFxRateCalc::from_char(v)
    }
}

impl vstd::std_specs::convert::TryFromSpecImpl<char> for SettlCurrFxRateCalc {
    open spec fn obeys_try_from_spec() -> bool {
        true
    }

    open spec fn try_from_spec(v: char) -> Result<SettlCurrFxRateCalc, DecodeError> {
        SettlCurrFxRateCalc::spec_decode(v)
    }
}

#[derive(Debug, Clone, Copy, PartialEq, Eq, Structural)]
pub enum SettlInstMode {
    DEFAULT,
    STANDING_INSTRUCTIONS_PROVIDED,
    SPECIFIC_ALLOCATION_ACCOUNT_OVERRIDING,
    SPECIFIC_ALLOCATION_ACCOUNT_STANDING,
}

impl SettlInstMode {
    pub open spec fn spec_char(self) -> char {
        match self {
            SettlInstMode::DEFAULT => '0',
            SettlInstMode::STANDING_INSTRUCTIONS_PROVIDED => '1',
            SettlInstMode::SPECIFIC_ALLOCATION_ACCOUNT_OVERRIDING => '2',
            SettlInstMode::SPECIFIC_ALLOCATION_ACCOUNT_STANDING => '3',
        }
    }

    pub open spec fn spec_from(v: char) -> Option<SettlInstMode> {
        match v {
            '0' => Some(SettlInstMode::DEFAULT),
            '1' => Some(SettlInstMode::STANDING_INSTRUCTIONS_PROVIDED),
            '2' => Some(SettlInstMode::SPECIFIC_ALLOCATION_ACCOUNT_OVERRIDING),
            '3' => Some(SettlInstMode::SPECIFIC_ALLOCATION_ACCOUNT_STANDING),
            _ => None,
        }
    }

    pub open spec fn spec_decode(c: char) -> Result<SettlInstMode, DecodeError> {
        match SettlInstMode::spec_from(c) {
            Some(x) => Ok(x),
            None => Err(DecodeError::UnknownChar(Tags::SettlInstMode, c)),
        }
    }

    pub fn as_char(&self) -> (r: char)
        ensures
            r == self.spec_char(),
    {
        match self {
            SettlInstMode::DEFAULT => '0',
            SettlInstMode::STANDING_INSTRUCTIONS_PROVIDED => '1',
            SettlInstMode::SPECIFIC_ALLOCATION_ACCOUNT_OVERRIDING => '2',
            SettlInstMode::SPECIFIC_ALLOCATION_ACCOUNT_STANDING => '3',
        }
    }

    pub fn from_char(c: char) -> (r: Result<SettlInstMode, DecodeError>)
        ensures
            r == SettlInstMode::spec_decode(c),
    {
        match c {
            '0' => Ok(SettlInstMode::DEFAULT),
            '1' => Ok(SettlInstMode::STANDING_INSTRUCTIONS_PROVIDED),
            '2' => Ok(SettlInstMode::SPECIFIC_ALLOCATION_ACCOUNT_OVERRIDING),
            '3' => Ok(SettlInstMode::SPECIFIC_ALLOCATION_ACCOUNT_STANDING),
            _ => Err(DecodeError::UnknownChar(Tags::SettlInstMode, c)),
        }
    }

    /// The value as the one ASCII byte that stands for it on the wire.
    pub fn as_bytes(&self) -> (r: Vec<u8>)
        ensures
            r@ == seq![self.spec_char() as u8],
    {
        vec![self.as_char() as u8]
    }
}

impl From<SettlInstMode> for char {
    fn from(a: SettlInstMode) -> (r: char) {
        a.as_char()
    }
}

impl vstd::std_specs::convert::FromSpecImpl<SettlInstMode> for char {
    open spec fn obeys_from_spec() -> bool {
        true
    }

    open spec fn from_spec(a: SettlInstMode) -> char {
        a.spec_char()
    }
}

impl TryFrom<char> for SettlInstMode {
    type Error = DecodeError;

    fn try_from(v: char) -> (r: Result<SettlInstMode, DecodeError>) {
        SettlInstMode::from_char(v)
    }
}

impl vstd::std_specs::convert::TryFromSpecImpl<char> for SettlInstMode {
    open spec fn obeys_try_from_spec() -> bool {
        true
    }

    open spec fn try_from_spec(v: char) -> Result<SettlInstMode, DecodeError> {
        SettlInstMode::spec_decode(v)
    }
}

#[derive(Debug, Clone, Copy, PartialEq, Eq, Structural)]
pub enum SettlInstTransType {
    CANCEL,
    NEW,
    REPLACE,
}

impl SettlInstTransType {
    pub open spec fn spec_char(self) -> char {
        match self {
            SettlInstTransType::CANCEL => 'C',
            SettlInstTransType::NEW => 'N',
            SettlInstTransType::REPLACE => 'R',
        }
    }

    pub open spec fn spec_from(v: char) -> Option<SettlInstTransType> {
        match v {
            'C' => Some(SettlInstTransType::CANCEL),
            'N' => Some(SettlInstTransType::NEW),
            'R' => Some(SettlInstTransType::REPLACE),
            _ => None,
        }
    }

    pub open spec fn spec_decode(c: char) -> Result<SettlInstTransType, DecodeError> {
        match SettlInstTransType::spec_from(c) {
            Some(x) => Ok(x),
            None => Err(DecodeError::UnknownChar(Tags::SettlInstTransType, c)),
        }
    }

    pub fn as_char(&self) -> (r: char)
        ensures
            r == self.spec_char(),
    {
        match self {
            SettlInstTransType::CANCEL => 'C',
            SettlInstTransType::NEW => 'N',
            SettlInstTransType::REPLACE => 'R',
        }
    }

    pub fn from_char(c: char) -> (r: Result<SettlInstTransType, DecodeError>)
        ensures
            r == SettlInstTransType::spec_decode(c),
    {
        match c {
            'C' => Ok(SettlInstTransType::CANCEL),
            'N' => Ok(SettlInstTransType::NEW),
            'R' => Ok(SettlInstTransType::REPLACE),
            _ => Err(DecodeError::UnknownChar(Tags::SettlInstTransType, c)),
        }
    }

    /// The value as the one ASCII byte that stands for it on the wire.
    pub fn as_bytes(&self) -> (r: Vec<u8>)
        ensures
            r@ == seq![self.spec_char() as u8],
    {
        vec![self.as_char() as u8]
    }
}

impl From<SettlInstTransType> for char {
    fn from(a: SettlInstTransType) -> (r: char) {
        a.as_char()
    }
}

impl vstd::std_specs::convert::FromSpecImpl<SettlInstTransType> for char {
    open spec fn obeys_from_spec() -> bool {
        true
    }

    open spec fn from_spec(a: SettlInstTransType) -> char {
        a.spec_char()
    }
}

impl TryFrom<char> for SettlInstTransType {
    type Error = DecodeError;

    fn try_from(v: char) -> (r: Result<SettlInstTransType, DecodeError>) {
        SettlInstTransType::from_char(v)
    }
}

impl vstd::std_specs::convert::TryFromSpecImpl<char> for SettlInstTransType {
    open spec fn obeys_try_from_spec() -> bool {
        true
    }

    open spec fn try_from_spec(v: char) -> Result<SettlInstTransType, DecodeError> {
        SettlInstTransType::spec_decode(v)
    }
}

#[derive(Debug, Clone, Copy, PartialEq, Eq, Structural)]
pub enum SettlInstSource {
    BROKERS_INSTRUCTIONS,
    INSTITUTIONS_INSTRUCTIONS,
}

impl SettlInstSource {
    pub open spec fn spec_char(self) -> char {
        match self {
            SettlInstSource::BROKERS_INSTRUCTIONS => '1',
            SettlInstSource::INSTITUTIONS_INSTRUCTIONS => '2',
        }
    }

    pub open spec fn spec_from(v: char) -> Option<SettlInstSource> {
        match v {
            '1' => Some(SettlInstSource::BROKERS_INSTRUCTIONS),
            '2' => Some(SettlInstSource::INSTITUTIONS_INSTRUCTIONS),
            _ => None,
        }
    }

    pub open spec fn spec_decode(c: char) -> Result<SettlInstSource, DecodeError> {
        match SettlInstSource::spec_from(c) {
            Some(x) => Ok(x),
            None => Err(DecodeError::UnknownChar(Tags::SettlInstSource, c)),
        }
    }

    pub fn as_char(&self) -> (r: char)
        ensures
            r == self.spec_char(),
    {
        match self {
            SettlInstSource::BROKERS_INSTRUCTIONS => '1',
            SettlInstSource::INSTITUTIONS_INSTRUCTIONS => '2',
        }
    }

    pub fn from_char(c: char) -> (r: Result<SettlInstSource, DecodeError>)
        ensures
            r == SettlInstSource::spec_decode(c),
    {
        match c {
            '1' => Ok(SettlInstSource::BROKERS_INSTRUCTIONS),
            '2' => Ok(SettlInstSource::INSTITUTIONS_INSTRUCTIONS),
            _ => Err(DecodeError::UnknownChar(Tags::SettlInstSource, c)),
        }
    }

    /// The value as the one ASCII byte that stands for it on the wire.
    pub fn as_bytes(&self) -> (r: Vec<u8>)
        ensures
            r@ == seq![self.spec_char() as u8],
    {
        vec![self.as_char() as u8]
    }
}

impl From<SettlInstSource> for char {
    fn from(a: SettlInstSource) -> (r: char) {
        a.as_char()
    }
}

impl vstd::std_specs::convert::FromSpecImpl<SettlInstSource> for char {
    open spec fn obeys_from_spec() -> bool {
        true
    }

    open spec fn from_spec(a: SettlInstSource) -> char {
        a.spec_char()
    }
}

impl TryFrom<char> for SettlInstSource {
    type Error = DecodeError;

    fn try_from(v: char) -> (r: Result<SettlInstSource, DecodeError>) {
        SettlInstSource::from_char(v)
    }
}

impl vstd::std_specs::convert::TryFromSpecImpl<char> for SettlInstSource {
    open spec fn obeys_try_from_spec() -> bool {
        true
    }

    open spec fn try_from_spec(v: char) -> Result<SettlInstSource, DecodeError> {
        SettlInstSource::spec_decode(v)
    }
}

#[derive(Debug, Clone, Copy, PartialEq, Eq, Structural)]
pub enum StandInstDbType {
    OTHER,
    DTC_SID,
    THOMSON_ALERT,
    A_GLOBAL_CUSTODIAN,
}

impl StandInstDbType {
    pub open spec fn spec_num(self) -> u8 {
        match self {
            StandInstDbType::OTHER => 0,
            StandInstDbType::DTC_SID => 1,
            StandInstDbType::THOMSON_ALERT => 2,
            StandInstDbType::A_GLOBAL_CUSTODIAN => 3,
        }
    }

    pub open spec fn spec_from(v: u8) -> Option<StandInstDbType> {
        match v {
            0 => Some(StandInstDbType::OTHER),
            1 => Some(StandInstDbType::DTC_SID),
            2 => Some(StandInstDbType::THOMSON_ALERT),
            3 => Some(StandInstDbType::A_GLOBAL_CUSTODIAN),
            _ => None,
        }
    }

    pub open spec fn spec_decode(c: u8) -> Result<StandInstDbType, DecodeError> {
        match StandInstDbType::spec_from(c) {
            Some(x) => Ok(x),
            None => Err(DecodeError::UnknownInt(Tags::StandInstDbType, c)),
        }
    }

    pub fn as_u8(&self) -> (r: u8)
        ensures
            r == self.spec_num(),
    {
        match self {
            StandInstDbType::OTHER => 0,
            StandInstDbType::DTC_SID => 1,
            StandInstDbType::THOMSON_ALERT => 2,
            StandInstDbType::A_GLOBAL_CUSTODIAN => 3,
        }
    }

    pub fn from_u8(c: u8) -> (r: Result<StandInstDbType, DecodeError>)
        ensures
            r == StandInstDbType::spec_decode(c),
    {
        match c {
            0 => Ok(StandInstDbType::OTHER),
            1 => Ok(StandInstDbType::DTC_SID),
            2 => Ok(StandInstDbType::THOMSON_ALERT),
            3 => Ok(StandInstDbType::A_GLOBAL_CUSTODIAN),
            _ => Err(DecodeError::UnknownInt(Tags::StandInstDbType, c)),
        }
    }
}

impl TryFrom<u8> for StandInstDbType {
    type Error = DecodeError;

    fn try_from(v: u8) -> (r: Result<StandInstDbType, DecodeError>) {
        StandInstDbType::from_u8(v)
    }
}

impl vstd::std_specs::convert::TryFromSpecImpl<u8> for StandInstDbType {
    open spec fn obeys_try_from_spec() -> bool {
        true
    }

    open spec fn try_from_spec(v: u8) -> Result<StandInstDbType, DecodeError> {
        StandInstDbType::spec_decode(v)
    }
}

#[derive(Debug, Clone, Copy, PartialEq, Eq, Structural)]
pub enum AllocLinkType {
    F_X_NETTING,
    F_X_SWAP,
}

impl AllocLinkType {
    pub open spec fn spec_num(self) -> u8 {
        match self {
            AllocLinkType::F_X_NETTING => 0,
            AllocLinkType::F_X_SWAP => 1,
        }
    }

    pub open spec fn spec_from(v: u8) -> Option<AllocLinkType> {
        match v {
            0 => Some(AllocLinkType::F_X_NETTING),
            1 => Some(AllocLinkType::F_X_SWAP),
            _ => None,
        }
    }

    pub open spec fn spec_decode(c: u8) -> Result<AllocLinkType, DecodeError> {
        match AllocLinkType::spec_from(c) {
            Some(x) => Ok(x),
            None => Err(DecodeError::UnknownInt(Tags::AllocLinkType, c)),
        }
    }

    pub fn as_u8(&self) -> (r: u8)
        ensures
            r == self.spec_num(),
    {
        match self {
            AllocLinkType::F_X_NETTING => 0,
            AllocLinkType::F_X_SWAP => 1,
        }
    }

    pub fn from_u8(c: u8) -> (r: Result<AllocLinkType, DecodeError>)
        ensures
            r == AllocLinkType::spec_decode(c),
    {
        match c {
            0 => Ok(AllocLinkType::F_X_NETTING),
            1 => Ok(AllocLinkType::F_X_SWAP),
            _ => Err(DecodeError::UnknownInt(Tags::AllocLinkType, c)),
        }
    }
}

impl TryFrom<u8> for AllocLinkType {
    type Error = DecodeError;

    fn try_from(v: u8) -> (r: Result<AllocLinkType, DecodeError>) {
        AllocLinkType::from_u8(v)
    }
}

impl vstd::std_specs::convert::TryFromSpecImpl<u8> for AllocLinkType {
    open spec fn obeys_try_from_spec() -> bool {
        true
    }

    open spec fn try_from_spec(v: u8) -> Result<AllocLinkType, DecodeError> {
        AllocLinkType::spec_decode(v)
    }
}

#[derive(Debug, Clone, Copy, PartialEq, Eq, Structural)]
pub enum PutOrCall {
    PUT,
    CALL,
}

impl PutOrCall {
    pub open spec fn spec_num(self) -> u8 {
        match self {
            PutOrCall::PUT => 0,
            PutOrCall::CALL => 1,
        }
    }

    pub open spec fn spec_from(v: u8) -> Option<PutOrCall> {
        match v {
            0 => Some(PutOrCall::PUT),
            1 => Some(PutOrCall::CALL),
            _ => None,
        }
    }

    pub open spec fn spec_decode(c: u8) -> Result<PutOrCall, DecodeError> {
        match PutOrCall::spec_from(c) {
            Some(x) => Ok(x),
            None => Err(DecodeError::UnknownInt(Tags::PutOrCall, c)),
        }
    }

    pub fn as_u8(&self) -> (r: u8)
        ensures
            r == self.spec_num(),
    {
        match self {
            PutOrCall::PUT => 0,
            PutOrCall::CALL => 1,
        }
    }

    pub fn from_u8(c: u8) -> (r: Result<PutOrCall, DecodeError>)
        ensures
            r == PutOrCall::spec_decode(c),
    {
        match c {
            0 => Ok(PutOrCall::PUT),
            1 => Ok(PutOrCall::CALL),
            _ => Err(DecodeError::UnknownInt(Tags::PutOrCall, c)),
        }
    }
}

impl TryFrom<u8> for PutOrCall {
    type Error = DecodeError;

    fn try_from(v: u8) -> (r: Result<PutOrCall, DecodeError>) {
        PutOrCall::from_u8(v)
    }
}

impl vstd::std_specs::convert::TryFromSpecImpl<u8> for PutOrCall {
    open spec fn obeys_try_from_spec() -> bool {
        true
    }

    open spec fn try_from_spec(v: u8) -> Result<PutOrCall, DecodeError> {
        PutOrCall::spec_decode(v)
    }
}

#[derive(Debug, Clone, Copy, PartialEq, Eq, Structural)]
pub enum CoveredOrUncovered {
    COVERED,
    UNCOVERED,
}

impl CoveredOrUncovered {
    pub open spec fn spec_num(self) -> u8 {
        match self {
            CoveredOrUncovered::COVERED => 0,
            CoveredOrUncovered::UNCOVERED => 1,
        }
    }

    pub open spec fn spec_from(v: u8) -> Option<CoveredOrUncovered> {
        match v {
            0 => Some(CoveredOrUncovered::COVERED),
            1 => Some(CoveredOrUncovered::UNCOVERED),
            _ => None,
        }
    }

    pub open spec fn spec_decode(c: u8) -> Result<CoveredOrUncovered, DecodeError> {
        match CoveredOrUncovered::spec_from(c) {
            Some(x) => Ok(x),
            None => Err(DecodeError::UnknownInt(Tags::CoveredOrUncovered, c)),
        }
    }

    pub fn as_u8(&self) -> (r: u8)
        ensures
            r == self.spec_num(),
    {
        match self {
            CoveredOrUncovered::COVERED => 0,
            CoveredOrUncovered::UNCOVERED => 1,
        }
    }

    pub fn from_u8(c: u8) -> (r: Result<CoveredOrUncovered, DecodeError>)
        ensures
            r == CoveredOrUncovered::spec_decode(c),
    {
        match c {
            0 => Ok(CoveredOrUncovered::COVERED),
            1 => Ok(CoveredOrUncovered::UNCOVERED),
            _ => Err(DecodeError::UnknownInt(Tags::CoveredOrUncovered, c)),
        }
    }
}

impl TryFrom<u8> for CoveredOrUncovered {
    type Error = DecodeError;

    fn try_from(v: u8) -> (r: Result<CoveredOrUncovered, DecodeError>) {
        CoveredOrUncovered::from_u8(v)
    }
}

impl vstd::std_specs::convert::TryFromSpecImpl<u8> for CoveredOrUncovered {
    open spec fn obeys_try_from_spec() -> bool {
        true
    }

    open spec fn try_from_spec(v: u8) -> Result<CoveredOrUncovered, DecodeError> {
        CoveredOrUncovered::spec_decode(v)
    }
}

#[derive(Debug, Clone, Copy, PartialEq, Eq, Structural)]
pub enum CustomerOrFirm {
    CUSTOMER,
    FIRM,
}

impl CustomerOrFirm {
    pub open spec fn spec_num(self) -> u8 {
        match self {
            CustomerOrFirm::CUSTOMER => 0,
            CustomerOrFirm::FIRM => 1,
        }
    }

    pub open spec fn spec_from(v: u8) -> Option<CustomerOrFirm> {
        match v {
            0 => Some(CustomerOrFirm::CUSTOMER),
            1 => Some(CustomerOrFirm::FIRM),
            _ => None,
        }
    }

    pub open spec fn spec_decode(c: u8) -> Result<CustomerOrFirm, DecodeError> {
        match CustomerOrFirm::spec_from(c) {
            Some(x) => Ok(x),
            None => Err(DecodeError::UnknownInt(Tags::CustomerOrFirm, c)),
        }
    }

    pub fn as_u8(&self) -> (r: u8)
        ensures
            r == self.spec_num(),
    {
        match self {
            CustomerOrFirm::CUSTOMER => 0,
            CustomerOrFirm::FIRM => 1,
        }
    }

    pub fn from_u8(c: u8) -> (r: Result<CustomerOrFirm, DecodeError>)
        ensures
            r == CustomerOrFirm::spec_decode(c),
    {
        match c {
            0 => Ok(CustomerOrFirm::CUSTOMER),
            1 => Ok(CustomerOrFirm::FIRM),
            _ => Err(DecodeError::UnknownInt(Tags::CustomerOrFirm, c)),
        }
    }
}

impl TryFrom<u8> for CustomerOrFirm {
    type Error = DecodeError;

    fn try_from(v: u8) -> (r: Result<CustomerOrFirm, DecodeError>) {
        CustomerOrFirm::from_u8(v)
    }
}

impl vstd::std_specs::convert::TryFromSpecImpl<u8> for CustomerOrFirm {
    open spec fn obeys_try_from_spec() -> bool {
        true
    }

    open spec fn try_from_spec(v: u8) -> Result<CustomerOrFirm, DecodeError> {
        CustomerOrFirm::spec_decode(v)
    }
}

#[derive(Debug, Clone, Copy, PartialEq, Eq, Structural)]
pub enum NotifyBrokerOfCredit {
    NO,
    YES,
}

impl NotifyBrokerOfCredit {
    pub open spec fn spec_char(self) -> char {
        match self {
            NotifyBrokerOfCredit::NO => 'N',
            NotifyBrokerOfCredit::YES => 'Y',
        }
    }

    pub open spec fn spec_from(v: char) -> Option<NotifyBrokerOfCredit> {
        match v {
            'N' => Some(NotifyBrokerOfCredit::NO),
            'Y' => Some(NotifyBrokerOfCredit::YES),
            _ => None,
        }
    }

    pub open spec fn spec_decode(c: char) -> Result<NotifyBrokerOfCredit, DecodeError> {
        match NotifyBrokerOfCredit::spec_from(c) {
            Some(x) => Ok(x),
            None => Err(DecodeError::UnknownChar(Tags::NotifyBrokerOfCredit, c)),
        }
    }

    pub fn as_char(&self) -> (r: char)
        ensures
            r == self.spec_char(),
    {
        match self {
            NotifyBrokerOfCredit::NO => 'N',
            NotifyBrokerOfCredit::YES => 'Y',
        }
    }

    pub fn from_char(c: char) -> (r: Result<NotifyBrokerOfCredit, DecodeError>)
        ensures
            r == NotifyBrokerOfCredit::spec_decode(c),
    {
        match c {
            'N' => Ok(NotifyBrokerOfCredit::NO),
            'Y' => Ok(NotifyBrokerOfCredit::YES),
            _ => Err(DecodeError::UnknownChar(Tags::NotifyBrokerOfCredit, c)),
        }
    }

    /// The value as the one ASCII byte that stands for it on the wire.
    pub fn as_bytes(&self) -> (r: Vec<u8>)
        ensures
            r@ == seq![self.spec_char() as u8],
    {
        vec![self.as_char() as u8]
    }
}

impl From<NotifyBrokerOfCredit> for char {
    fn from(a: NotifyBrokerOfCredit) -> (r: char) {
        a.as_char()
    }
}

impl vstd::std_specs::convert::FromSpecImpl<NotifyBrokerOfCredit> for char {
    open spec fn obeys_from_spec() -> bool {
        true
    }

    open spec fn from_spec(a: NotifyBrokerOfCredit) -> char {
        a.spec_char()
    }
}

impl TryFrom<char> for NotifyBrokerOfCredit {
    type Error = DecodeError;

    fn try_from(v: char) -> (r: Result<NotifyBrokerOfCredit, DecodeError>) {
        NotifyBrokerOfCredit::from_char(v)
    }
}

impl vstd::std_specs::convert::TryFromSpecImpl<char> for NotifyBrokerOfCredit {
    open spec fn obeys_try_from_spec() -> bool {
        true
    }

    open spec fn try_from_spec(v: char) -> Result<NotifyBrokerOfCredit, DecodeError> {
        NotifyBrokerOfCredit::spec_decode(v)
    }
}

#[derive(Debug, Clone, Copy, PartialEq, Eq, Structural)]
pub enum AllocHandlInst {
    MATCH,
    FORWARD,
    FORWARD_AND_MATCH,
}

impl AllocHandlInst {
    pub open spec fn spec_num(self) -> u8 {
        match self {
            AllocHandlInst::MATCH => 1,
            AllocHandlInst::FORWARD => 2,
            AllocHandlInst::FORWARD_AND_MATCH => 3,
        }
    }

    pub open spec fn spec_from(v: u8) -> Option<AllocHandlInst> {
        match v {
            1 => Some(AllocHandlInst::MATCH),
            2 => Some(AllocHandlInst::FORWARD),
            3 => Some(AllocHandlInst::FORWARD_AND_MATCH),
            _ => None,
        }
    }

    pub open spec fn spec_decode(c: u8) -> Result<AllocHandlInst, DecodeError> {
        match AllocHandlInst::spec_from(c) {
            Some(x) => Ok(x),
            None => Err(DecodeError::UnknownInt(Tags::AllocHandlInst, c)),
        }
    }

    pub fn as_u8(&self) -> (r: u8)
        ensures
            r == self.spec_num(),
    {
        match self {
            AllocHandlInst::MATCH => 1,
            AllocHandlInst::FORWARD => 2,
            AllocHandlInst::FORWARD_AND_MATCH => 3,
        }
    }

    pub fn from_u8(c: u8) -> (r: Result<AllocHandlInst, DecodeError>)
        ensures
            r == AllocHandlInst::spec_decode(c),
    {
        match c {
            1 => Ok(AllocHandlInst::MATCH),
            2 => Ok(AllocHandlInst::FORWARD),
            3 => Ok(AllocHandlInst::FORWARD_AND_MATCH),
            _ => Err(DecodeError::UnknownInt(Tags::AllocHandlInst, c)),
        }
    }
}

impl TryFrom<u8> for AllocHandlInst {
    type Error = DecodeError;

    fn try_from(v: u8) -> (r: Result<AllocHandlInst, DecodeError>) {
        AllocHandlInst::from_u8(v)
    }
}

impl vstd::std_specs::convert::TryFromSpecImpl<u8> for AllocHandlInst {
    open spec fn obeys_try_from_spec() -> bool {
        true
    }

    open spec fn try_from_spec(v: u8) -> Result<AllocHandlInst, DecodeError> {
        AllocHandlInst::spec_decode(v)
    }
}

#[derive(Debug, Clone, Copy, PartialEq, Eq, Structural)]
pub enum RoutingType {
    TARGET_FIRM,
    TARGET_LIST,
    BLOCK_FIRM,
    BLOCK_LIST,
}

impl RoutingType {
    pub open spec fn spec_num(self) -> u8 {
        match self {
            RoutingType::TARGET_FIRM => 1,
            RoutingType::TARGET_LIST => 2,
            RoutingType::BLOCK_FIRM => 3,
            RoutingType::BLOCK_LIST => 4,
        }
    }

    pub open spec fn spec_from(v: u8) -> Option<RoutingType> {
        match v {
            1 => Some(RoutingType::TARGET_FIRM),
            2 => Some(RoutingType::TARGET_LIST),
            3 => Some(RoutingType::BLOCK_FIRM),
            4 => Some(RoutingType::BLOCK_LIST),
            _ => None,
        }
    }

    pub open spec fn spec_decode(c: u8) -> Result<RoutingType, DecodeError> {
        match RoutingType::spec_from(c) {
            Some(x) => Ok(x),
            None => Err(DecodeError::UnknownInt(Tags::RoutingType, c)),
        }
    }

    pub fn as_u8(&self) -> (r: u8)
        ensures
            r == self.spec_num(),
    {
        match self {
            RoutingType::TARGET_FIRM => 1,
            RoutingType::TARGET_LIST => 2,
            RoutingType::BLOCK_FIRM => 3,
            RoutingType::BLOCK_LIST => 4,
        }
    }

    pub fn from_u8(c: u8) -> (r: Result<RoutingType, DecodeError>)
        ensures
            r == RoutingType::spec_decode(c),
    {
        match c {
            1 => Ok(RoutingType::TARGET_FIRM),
            2 => Ok(RoutingType::TARGET_LIST),
            3 => Ok(RoutingType::BLOCK_FIRM),
            4 => Ok(RoutingType::BLOCK_LIST),
            _ => Err(DecodeError::UnknownInt(Tags::RoutingType, c)),
        }
    }
}

impl TryFrom<u8> for RoutingType {
    type Error = DecodeError;

    fn try_from(v: u8) -> (r: Result<RoutingType, DecodeError>) {
        RoutingType::from_u8(v)
    }
}

impl vstd::std_specs::convert::TryFromSpecImpl<u8> for RoutingType {
    open spec fn obeys_try_from_spec() -> bool {
        true
    }

    open spec fn try_from_spec(v: u8) -> Result<RoutingType, DecodeError> {
        RoutingType::spec_decode(v)
    }
}

#[derive(Debug, Clone, Copy, PartialEq, Eq, Structural)]
pub enum Benchmark {
    CURVE,
    FIVE_YR,
    OLD_5,
    TEN_YR,
    OLD_10,
    THIRTY_YR,
    OLD_30,
    THREE_MO_LIBOR,
    SIX_MO_LIBOR,
}

impl Benchmark {
    pub open spec fn spec_char(self) -> char {
        match self {
            Benchmark::CURVE => '1',
            Benchmark::FIVE_YR => '2',
            Benchmark::OLD_5 => '3',
            Benchmark::TEN_YR => '4',
            Benchmark::OLD_10 => '5',
            Benchmark::THIRTY_YR => '6',
            Benchmark::OLD_30 => '7',
            Benchmark::THREE_MO_LIBOR => '8',
            Benchmark::SIX_MO_LIBOR => '9',
        }
    }

    pub open spec fn spec_from(v: char) -> Option<Benchmark> {
        match v {
            '1' => Some(Benchmark::CURVE),
            '2' => Some(Benchmark::FIVE_YR),
            '3' => Some(Benchmark::OLD_5),
            '4' => Some(Benchmark::TEN_YR),
            '5' => Some(Benchmark::OLD_10),
            '6' => Some(Benchmark::THIRTY_YR),
            '7' => Some(Benchmark::OLD_30),
            '8' => Some(Benchmark::THREE_MO_LIBOR),
            '9' => Some(Benchmark::SIX_MO_LIBOR),
            _ => None,
        }
    }

    pub open spec fn spec_decode(c: char) -> Result<Benchmark, DecodeError> {
        match Benchmark::spec_from(c) {
            Some(x) => Ok(x),
            None => Err(DecodeError::UnknownChar(Tags::Benchmark, c)),
        }
    }

    pub fn as_char(&self) -> (r: char)
        ensures
            r == self.spec_char(),
    {
        match self {
            Benchmark::CURVE => '1',
            Benchmark::FIVE_YR => '2',
            Benchmark::OLD_5 => '3',
            Benchmark::TEN_YR => '4',
            Benchmark::OLD_10 => '5',
            Benchmark::THIRTY_YR => '6',
            Benchmark::OLD_30 => '7',
            Benchmark::THREE_MO_LIBOR => '8',
            Benchmark::SIX_MO_LIBOR => '9',
        }
    }

    pub fn from_char(c: char) -> (r: Result<Benchmark, DecodeError>)
        ensures
            r == Benchmark::spec_decode(c),
    {
        match c {
            '1' => Ok(Benchmark::CURVE),
            '2' => Ok(Benchmark::FIVE_YR),
            '3' => Ok(Benchmark::OLD_5),
            '4' => Ok(Benchmark::TEN_YR),
            '5' => Ok(Benchmark::OLD_10),
            '6' => Ok(Benchmark::THIRTY_YR),
            '7' => Ok(Benchmark::OLD_30),
            '8' => Ok(Benchmark::THREE_MO_LIBOR),
            '9' => Ok(Benchmark::SIX_MO_LIBOR),
            _ => Err(DecodeError::UnknownChar(Tags::Benchmark, c)),
        }
    }

    /// The value as the one ASCII byte that stands for it on the wire.
    pub fn as_bytes(&self) -> (r: Vec<u8>)
        ensures
            r@ == seq![self.spec_char() as u8],
    {
        vec![self.as_char() as u8]
    }
}

impl From<Benchmark> for char {
    fn from(a: Benchmark) -> (r: char) {
        a.as_char()
    }
}

impl vstd::std_specs::convert::FromSpecImpl<Benchmark> for char {
    open spec fn obeys_from_spec() -> bool {
        true
    }

    open spec fn from_spec(a: Benchmark) -> char {
        a.spec_char()
    }
}

impl TryFrom<char> for Benchmark {
    type Error = DecodeError;

    fn try_from(v: char) -> (r: Result<Benchmark, DecodeError>) {
        Benchmark::from_char(v)
    }
}

impl vstd::std_specs::convert::TryFromSpecImpl<char> for Benchmark {
    open spec fn obeys_try_from_spec() -> bool {
        true
    }

    open spec fn try_from_spec(v: char) -> Result<Benchmark, DecodeError> {
        Benchmark::spec_decode(v)
    }
}

#[derive(Debug, Clone, Copy, PartialEq, Eq, Structural)]
pub enum SubscriptionRequestType {
    SNAPSHOT,
    SNAPSHOT_PLUS_UPDATES,
    DISABLE_PREVIOUS_SNAPSHOT_PLUS_UPDATE_REQUEST,
}

impl SubscriptionRequestType {
    pub open spec fn spec_char(self) -> char {
        match self {
            SubscriptionRequestType::SNAPSHOT => '0',
            SubscriptionRequestType::SNAPSHOT_PLUS_UPDATES => '1',
            SubscriptionRequestType::DISABLE_PREVIOUS_SNAPSHOT_PLUS_UPDATE_REQUEST => '2',
        }
    }

    pub open spec fn spec_from(v: char) -> Option<SubscriptionRequestType> {
        match v {
            '0' => Some(SubscriptionRequestType::SNAPSHOT),
            '1' => Some(SubscriptionRequestType::SNAPSHOT_PLUS_UPDATES),
            '2' => Some(SubscriptionRequestType::DISABLE_PREVIOUS_SNAPSHOT_PLUS_UPDATE_REQUEST),
            _ => None,
        }
    }

    pub open spec fn spec_decode(c: char) -> Result<SubscriptionRequestType, DecodeError> {
        match SubscriptionRequestType::spec_from(c) {
            Some(x) => Ok(x),
            None => Err(DecodeError::UnknownChar(Tags::SubscriptionRequestType, c)),
        }
    }

    pub fn as_char(&self) -> (r: char)
        ensures
            r == self.spec_char(),
    {
        match self {
            SubscriptionRequestType::SNAPSHOT => '0',
            SubscriptionRequestType::SNAPSHOT_PLUS_UPDATES => '1',
            SubscriptionRequestType::DISABLE_PREVIOUS_SNAPSHOT_PLUS_UPDATE_REQUEST => '2',
        }
    }

    pub fn from_char(c: char) -> (r: Result<SubscriptionRequestType, DecodeError>)
        ensures
            r == SubscriptionRequestType::spec_decode(c),
    {
        match c {
            '0' => Ok(SubscriptionRequestType::SNAPSHOT),
            '1' => Ok(SubscriptionRequestType::SNAPSHOT_PLUS_UPDATES),
            '2' => Ok(SubscriptionRequestType::DISABLE_PREVIOUS_SNAPSHOT_PLUS_UPDATE_REQUEST),
            _ => Err(DecodeError::UnknownChar(Tags::SubscriptionRequestType, c)),
        }
    }

    /// The value as the one ASCII byte that stands for it on the wire.
    pub fn as_bytes(&self) -> (r: Vec<u8>)
        ensures
            r@ == seq![self.spec_char() as u8],
    {
        vec![self.as_char() as u8]
    }
}

impl From<SubscriptionRequestType> for char {
    fn from(a: SubscriptionRequestType) -> (r: char) {
        a.as_char()
    }
}

impl vstd::std_specs::convert::FromSpecImpl<SubscriptionRequestType> for char {
    open spec fn obeys_from_spec() -> bool {
        true
    }

    open spec fn from_spec(a: SubscriptionRequestType) -> char {
        a.spec_char()
    }
}

impl TryFrom<char> for SubscriptionRequestType {
    type Error = DecodeError;

    fn try_from(v: char) -> (r: Result<SubscriptionRequestType, DecodeError>) {
        SubscriptionRequestType::from_char(v)
    }
}

impl vstd::std_specs::convert::TryFromSpecImpl<char> for SubscriptionRequestType {
    open spec fn obeys_try_from_spec() -> bool {
        true
    }

    open spec fn try_from_spec(v: char) -> Result<SubscriptionRequestType, DecodeError> {
        SubscriptionRequestType::spec_decode(v)
    }
}

#[derive(Debug, Clone, Copy, PartialEq, Eq, Structural)]
pub enum MDUpdateType {
    FULL_REFRESH,
    INCREMENTAL_REFRESH,
}

impl MDUpdateType {
    pub open spec fn spec_num(self) -> u8 {
        match self {
            MDUpdateType::FULL_REFRESH => 0,
            MDUpdateType::INCREMENTAL_REFRESH => 1,
        }
    }

    pub open spec fn spec_from(v: u8) -> Option<MDUpdateType> {
        match v {
            0 => Some(MDUpdateType::FULL_REFRESH),
            1 => Some(MDUpdateType::INCREMENTAL_REFRESH),
            _ => None,
        }
    }

    pub open spec fn spec_decode(c: u8) -> Result<MDUpdateType, DecodeError> {
        match MDUpdateType::spec_from(c) {
            Some(x) => Ok(x),
            None => Err(DecodeError::UnknownInt(Tags::MDUpdateType, c)),
        }
    }

    pub fn as_u8(&self) -> (r: u8)
        ensures
            r == self.spec_num(),
    {
        match self {
            MDUpdateType::FULL_REFRESH => 0,
            MDUpdateType::INCREMENTAL_REFRESH => 1,
        }
    }

    pub fn from_u8(c: u8) -> (r: Result<MDUpdateType, DecodeError>)
        ensures
            r == MDUpdateType::spec_decode(c),
    {
        match c {
            0 => Ok(MDUpdateType::FULL_REFRESH),
            1 => Ok(MDUpdateType::INCREMENTAL_REFRESH),
            _ => Err(DecodeError::UnknownInt(Tags::MDUpdateType, c)),
        }
    }
}

impl TryFrom<u8> for MDUpdateType {
    type Error = DecodeError;

    fn try_from(v: u8) -> (r: Result<MDUpdateType, DecodeError>) {
        MDUpdateType::from_u8(v)
    }
}

impl vstd::std_specs::convert::TryFromSpecImpl<u8> for MDUpdateType {
    open spec fn obeys_try_from_spec() -> bool {
        true
    }

    open spec fn try_from_spec(v: u8) -> Result<MDUpdateType, DecodeError> {
        MDUpdateType::spec_decode(v)
    }
}

#[derive(Debug, Clone, Copy, PartialEq, Eq, Structural)]
pub enum AggregatedBook {
    NO,
    YES,
}

impl AggregatedBook {
    pub open spec fn spec_char(self) -> char {
        match self {
            AggregatedBook::NO => 'N',
            AggregatedBook::YES => 'Y',
        }
    }

    pub open spec fn spec_from(v: char) -> Option<AggregatedBook> {
        match v {
            'N' => Some(AggregatedBook::NO),
            'Y' => Some(AggregatedBook::YES),
            _ => None,
        }
    }

    pub open spec fn spec_decode(c: char) -> Result<AggregatedBook, DecodeError> {
        match AggregatedBook::spec_from(c) {
            Some(x) => Ok(x),
            None => Err(DecodeError::UnknownChar(Tags::AggregatedBook, c)),
        }
    }

    pub fn as_char(&self) -> (r: char)
        ensures
            r == self.spec_char(),
    {
        match self {
            AggregatedBook::NO => 'N',
            AggregatedBook::YES => 'Y',
        }
    }

    pub fn from_char(c: char) -> (r: Result<AggregatedBook, DecodeError>)
        ensures
            r == AggregatedBook::spec_decode(c),
    {
        match c {
            'N' => Ok(AggregatedBook::NO),
            'Y' => Ok(AggregatedBook::YES),
            _ => Err(DecodeError::UnknownChar(Tags::AggregatedBook, c)),
        }
    }

    /// The value as the one ASCII byte that stands for it on the wire.
    pub fn as_bytes(&self) -> (r: Vec<u8>)
        ensures
            r@ == seq![self.spec_char() as u8],
    {
        vec![self.as_char() as u8]
    }
}

impl From<AggregatedBook> for char {
    fn from(a: AggregatedBook) -> (r: char) {
        a.as_char()
    }
}

impl vstd::std_specs::convert::FromSpecImpl<AggregatedBook> for char {
    open spec fn obeys_from_spec() -> bool {
        true
    }

    open spec fn from_spec(a: AggregatedBook) -> char {
        a.spec_char()
    }
}

impl TryFrom<char> for AggregatedBook {
    type Error = DecodeError;

    fn try_from(v: char) -> (r: Result<AggregatedBook, DecodeError>) {
        AggregatedBook::from_char(v)
    }
}

impl vstd::std_specs::convert::TryFromSpecImpl<char> for AggregatedBook {
    open spec fn obeys_try_from_spec() -> bool {
        true
    }

    open spec fn try_from_spec(v: char) -> Result<AggregatedBook, DecodeError> {
        AggregatedBook::spec_decode(v)
    }
}

#[derive(Debug, Clone, Copy, PartialEq, Eq, Structural)]
pub enum MDEntryType {
    BID,
    OFFER,
    TRADE,
    INDEX_VALUE,
    OPENING_PRICE,
    CLOSING_PRICE,
    SETTLEMENT_PRICE,
    TRADING_SESSION_HIGH_PRICE,
    TRADING_SESSION_LOW_PRICE,
    TRADING_SESSION_VWAP_PRICE,
}

impl MDEntryType {
    pub open spec fn spec_char(self) -> char {
        match self {
            MDEntryType::BID => '0',
            MDEntryType::OFFER => '1',
            MDEntryType::TRADE => '2',
            MDEntryType::INDEX_VALUE => '3',
            MDEntryType::OPENING_PRICE => '4',
            MDEntryType::CLOSING_PRICE => '5',
            MDEntryType::SETTLEMENT_PRICE => '6',
            MDEntryType::TRADING_SESSION_HIGH_PRICE => '7',
            MDEntryType::TRADING_SESSION_LOW_PRICE => '8',
            MDEntryType::TRADING_SESSION_VWAP_PRICE => '9',
        }
    }

    pub open spec fn spec_from(v: char) -> Option<MDEntryType> {
        match v {
            '0' => Some(MDEntryType::BID),
            '1' => Some(MDEntryType::OFFER),
            '2' => Some(MDEntryType::TRADE),
            '3' => Some(MDEntryType::INDEX_VALUE),
            '4' => Some(MDEntryType::OPENING_PRICE),
            '5' => Some(MDEntryType::CLOSING_PRICE),
            '6' => Some(MDEntryType::SETTLEMENT_PRICE),
            '7' => Some(MDEntryType::TRADING_SESSION_HIGH_PRICE),
            '8' => Some(MDEntryType::TRADING_SESSION_LOW_PRICE),
            '9' => Some(MDEntryType::TRADING_SESSION_VWAP_PRICE),
            _ => None,
        }
    }

    pub open spec fn spec_decode(c: char) -> Result<MDEntryType, DecodeError> {
        match MDEntryType::spec_from(c) {
            Some(x) => Ok(x),
            None => Err(DecodeError::UnknownChar(Tags::MDEntryType, c)),
        }
    }

    pub fn as_char(&self) -> (r: char)
        ensures
            r == self.spec_char(),
    {
        match self {
            MDEntryType::BID => '0',
            MDEntryType::OFFER => '1',
            MDEntryType::TRADE => '2',
            MDEntryType::INDEX_VALUE => '3',
            MDEntryType::OPENING_PRICE => '4',
            MDEntryType::CLOSING_PRICE => '5',
            MDEntryType::SETTLEMENT_PRICE => '6',
            MDEntryType::TRADING_SESSION_HIGH_PRICE => '7',
            MDEntryType::TRADING_SESSION_LOW_PRICE => '8',
            MDEntryType::TRADING_SESSION_VWAP_PRICE => '9',
        }
    }

    pub fn from_char(c: char) -> (r: Result<MDEntryType, DecodeError>)
        ensures
            r == MDEntryType::spec_decode(c),
    {
        match c {
            '0' => Ok(MDEntryType::BID),
            '1' => Ok(MDEntryType::OFFER),
            '2' => Ok(MDEntryType::TRADE),
            '3' => Ok(MDEntryType::INDEX_VALUE),
            '4' => Ok(MDEntryType::OPENING_PRICE),
            '5' => Ok(MDEntryType::CLOSING_PRICE),
            '6' => Ok(MDEntryType::SETTLEMENT_PRICE),
            '7' => Ok(MDEntryType::TRADING_SESSION_HIGH_PRICE),
            '8' => Ok(MDEntryType::TRADING_SESSION_LOW_PRICE),
            '9' => Ok(MDEntryType::TRADING_SESSION_VWAP_PRICE),
            _ => Err(DecodeError::UnknownChar(Tags::MDEntryType, c)),
        }
    }

    /// The value as the one ASCII byte that stands for it on the wire.
    pub fn as_bytes(&self) -> (r: Vec<u8>)
        ensures
            r@ == seq![self.spec_char() as u8],
    {
        vec![self.as_char() as u8]
    }
}

impl From<MDEntryType> for char {
    fn from(a: MDEntryType) -> (r: char) {
        a.as_char()
    }
}

impl vstd::std_specs::convert::FromSpecImpl<MDEntryType> for char {
    open spec fn obeys_from_spec() -> bool {
        true
    }

    open spec fn from_spec(a: MDEntryType) -> char {
        a.spec_char()
    }
}

impl TryFrom<char> for MDEntryType {
    type Error = DecodeError;

    fn try_from(v: char) -> (r: Result<MDEntryType, DecodeError>) {
        MDEntryType::from_char(v)
    }
}

impl vstd::std_specs::convert::TryFromSpecImpl<char> for MDEntryType {
    open spec fn obeys_try_from_spec() -> bool {
        true
    }

    open spec fn try_from_spec(v: char) -> Result<MDEntryType, DecodeError> {
        MDEntryType::spec_decode(v)
    }
}

#[derive(Debug, Clone, Copy, PartialEq, Eq, Structural)]
pub enum TickDirection {
    PLUS_TICK,
    ZERO_PLUS_TICK,
    MINUS_TICK,
    ZERO_MINUS_TICK,
}

impl TickDirection {
    pub open spec fn spec_char(self) -> char {
        match self {
            TickDirection::PLUS_TICK => '0',
            TickDirection::ZERO_PLUS_TICK => '1',
            TickDirection::MINUS_TICK => '2',
            TickDirection::ZERO_MINUS_TICK => '3',
        }
    }

    pub open spec fn spec_from(v: char) -> Option<TickDirection> {
        match v {
            '0' => Some(TickDirection::PLUS_TICK),
            '1' => Some(TickDirection::ZERO_PLUS_TICK),
            '2' => Some(TickDirection::MINUS_TICK),
            '3' => Some(TickDirection::ZERO_MINUS_TICK),
            _ => None,
        }
    }

    pub open spec fn spec_decode(c: char) -> Result<TickDirection, DecodeError> {
        match TickDirection::spec_from(c) {
            Some(x) => Ok(x),
            None => Err(DecodeError::UnknownChar(Tags::TickDirection, c)),
        }
    }

    pub fn as_char(&self) -> (r: char)
        ensures
            r == self.spec_char(),
    {
        match self {
            TickDirection::PLUS_TICK => '0',
            TickDirection::ZERO_PLUS_TICK => '1',
            TickDirection::MINUS_TICK => '2',
            TickDirection::ZERO_MINUS_TICK => '3',
        }
    }

    pub fn from_char(c: char) -> (r: Result<TickDirection, DecodeError>)
        ensures
            r == TickDirection::spec_decode(c),
    {
        match c {
            '0' => Ok(TickDirection::PLUS_TICK),
            '1' => Ok(TickDirection::ZERO_PLUS_TICK),
            '2' => Ok(TickDirection::MINUS_TICK),
            '3' => Ok(TickDirection::ZERO_MINUS_TICK),
            _ => Err(DecodeError::UnknownChar(Tags::TickDirection, c)),
        }
    }

    /// The value as the one ASCII byte that stands for it on the wire.
    pub fn as_bytes(&self) -> (r: Vec<u8>)
        ensures
            r@ == seq![self.spec_char() as u8],
    {
        vec![self.as_char() as u8]
    }
}

impl From<TickDirection> for char {
    fn from(a: TickDirection) -> (r: char) {
        a.as_char()
    }
}

impl vstd::std_specs::convert::FromSpecImpl<TickDirection> for char {
    open spec fn obeys_from_spec() -> bool {
        true
    }

    open spec fn from_spec(a: TickDirection) -> char {
        a.spec_char()
    }
}

impl TryFrom<char> for TickDirection {
    type Error = DecodeError;

    fn try_from(v: char) -> (r: Result<TickDirection, DecodeError>) {
        TickDirection::from_char(v)
    }
}

impl vstd::std_specs::convert::TryFromSpecImpl<char> for TickDirection {
    open spec fn obeys_try_from_spec() -> bool {
        true
    }

    open spec fn try_from_spec(v: char) -> Result<TickDirection, DecodeError> {
        TickDirection::spec_decode(v)
    }
}

#[derive(Debug, Clone, Copy, PartialEq, Eq, Structural)]
pub enum MDUpdateAction {
    NEW,
    CHANGE,
    DELETE,
}

impl MDUpdateAction {
    pub open spec fn spec_char(self) -> char {
        match self {
            MDUpdateAction::NEW => '0',
            MDUpdateAction::CHANGE => '1',
            MDUpdateAction::DELETE => '2',
        }
    }

    pub open spec fn spec_from(v: char) -> Option<MDUpdateAction> {
        match v {
            '0' => Some(MDUpdateAction::NEW),
            '1' => Some(MDUpdateAction::CHANGE),
            '2' => Some(MDUpdateAction::DELETE),
            _ => None,
        }
    }

    pub open spec fn spec_decode(c: char) -> Result<MDUpdateAction, DecodeError> {
        match MDUpdateAction::spec_from(c) {
            Some(x) => Ok(x),
            None => Err(DecodeError::UnknownChar(Tags::MDUpdateAction, c)),
        }
    }

    pub fn as_char(&self) -> (r: char)
        ensures
            r == self.spec_char(),
    {
        match self {
            MDUpdateAction::NEW => '0',
            MDUpdateAction::CHANGE => '1',
            MDUpdateAction::DELETE => '2',
        }
    }

    pub fn from_char(c: char) -> (r: Result<MDUpdateAction, DecodeError>)
        ensures
            r == MDUpdateAction::spec_decode(c),
    {
        match c {
            '0' => Ok(MDUpdateAction::NEW),
            '1' => Ok(MDUpdateAction::CHANGE),
            '2' => Ok(MDUpdateAction::DELETE),
            _ => Err(DecodeError::UnknownChar(Tags::MDUpdateAction, c)),
        }
    }

    /// The value as the one ASCII byte that stands for it on the wire.
    pub fn as_bytes(&self) -> (r: Vec<u8>)
        ensures
            r@ == seq![self.spec_char() as u8],
    {
        vec![self.as_char() as u8]
    }
}

impl From<MDUpdateAction> for char {
    fn from(a: MDUpdateAction) -> (r: char) {
        a.as_char()
    }
}

impl vstd::std_specs::convert::FromSpecImpl<MDUpdateAction> for char {
    open spec fn obeys_from_spec() -> bool {
        true
    }

    open spec fn from_spec(a: MDUpdateAction) -> char {
        a.spec_char()
    }
}

impl TryFrom<char> for MDUpdateAction {
    type Error = DecodeError;

    fn try_from(v: char) -> (r: Result<MDUpdateAction, DecodeError>) {
        MDUpdateAction::from_char(v)
    }
}

impl vstd::std_specs::convert::TryFromSpecImpl<char> for MDUpdateAction {
    open spec fn obeys_try_from_spec() -> bool {
        true
    }

    open spec fn try_from_spec(v: char) -> Result<MDUpdateAction, DecodeError> {
        MDUpdateAction::spec_decode(v)
    }
}

#[derive(Debug, Clone, Copy, PartialEq, Eq, Structural)]
pub enum MDReqRejReason {
    UNKNOWN_SYMBOL,
    DUPLICATE_MDREQID,
    INSUFFICIENT_BANDWIDTH,
    INSUFFICIENT_PERMISSIONS,
    UNSUPPORTED_SUBSCRIPTIONREQUESTTYPE,
    UNSUPPORTED_MARKETDEPTH,
    UNSUPPORTED_MDUPDATETYPE,
    UNSUPPORTED_AGGREGATEDBOOK,
    UNSUPPORTED_MDENTRYTYPE,
}

impl MDReqRejReason {
    pub open spec fn spec_char(self) -> char {
        match self {
            MDReqRejReason::UNKNOWN_SYMBOL => '0',
            MDReqRejReason::DUPLICATE_MDREQID => '1',
            MDReqRejReason::INSUFFICIENT_BANDWIDTH => '2',
            MDReqRejReason::INSUFFICIENT_PERMISSIONS => '3',
            MDReqRejReason::UNSUPPORTED_SUBSCRIPTIONREQUESTTYPE => '4',
            MDReqRejReason::UNSUPPORTED_MARKETDEPTH => '5',
            MDReqRejReason::UNSUPPORTED_MDUPDATETYPE => '6',
            MDReqRejReason::UNSUPPORTED_AGGREGATEDBOOK => '7',
            MDReqRejReason::UNSUPPORTED_MDENTRYTYPE => '8',
        }
    }

    pub open spec fn spec_from(v: char) -> Option<MDReqRejReason> {
        match v {
            '0' => Some(MDReqRejReason::UNKNOWN_SYMBOL),
            '1' => Some(MDReqRejReason::DUPLICATE_MDREQID),
            '2' => Some(MDReqRejReason::INSUFFICIENT_BANDWIDTH),
            '3' => Some(MDReqRejReason::INSUFFICIENT_PERMISSIONS),
            '4' => Some(MDReqRejReason::UNSUPPORTED_SUBSCRIPTIONREQUESTTYPE),
            '5' => Some(MDReqRejReason::UNSUPPORTED_MARKETDEPTH),
            '6' => Some(MDReqRejReason::UNSUPPORTED_MDUPDATETYPE),
            '7' => Some(MDReqRejReason::UNSUPPORTED_AGGREGATEDBOOK),
            '8' => Some(MDReqRejReason::UNSUPPORTED_MDENTRYTYPE),
            _ => None,
        }
    }

    pub open spec fn spec_decode(c: char) -> Result<MDReqRejReason, DecodeError> {
        match MDReqRejReason::spec_from(c) {
            Some(x) => Ok(x),
            None => Err(DecodeError::UnknownChar(Tags::MDReqRejReason, c)),
        }
    }

    pub fn as_char(&self) -> (r: char)
        ensures
            r == self.spec_char(),
    {
        match self {
            MDReqRejReason::UNKNOWN_SYMBOL => '0',
            MDReqRejReason::DUPLICATE_MDREQID => '1',
            MDReqRejReason::INSUFFICIENT_BANDWIDTH => '2',
            MDReqRejReason::INSUFFICIENT_PERMISSIONS => '3',
            MDReqRejReason::UNSUPPORTED_SUBSCRIPTIONREQUESTTYPE => '4',
            MDReqRejReason::UNSUPPORTED_MARKETDEPTH => '5',
            MDReqRejReason::UNSUPPORTED_MDUPDATETYPE => '6',
            MDReqRejReason::UNSUPPORTED_AGGREGATEDBOOK => '7',
            MDReqRejReason::UNSUPPORTED_MDENTRYTYPE => '8',
        }
    }

    pub fn from_char(c: char) -> (r: Result<MDReqRejReason, DecodeError>)
        ensures
            r == MDReqRejReason::spec_decode(c),
    {
        match c {
            '0' => Ok(MDReqRejReason::UNKNOWN_SYMBOL),
            '1' => Ok(MDReqRejReason::DUPLICATE_MDREQID),
            '2' => Ok(MDReqRejReason::INSUFFICIENT_BANDWIDTH),
            '3' => Ok(MDReqRejReason::INSUFFICIENT_PERMISSIONS),
            '4' => Ok(MDReqRejReason::UNSUPPORTED_SUBSCRIPTIONREQUESTTYPE),
            '5' => Ok(MDReqRejReason::UNSUPPORTED_MARKETDEPTH),
            '6' => Ok(MDReqRejReason::UNSUPPORTED_MDUPDATETYPE),
            '7' => Ok(MDReqRejReason::UNSUPPORTED_AGGREGATEDBOOK),
            '8' => Ok(MDReqRejReason::UNSUPPORTED_MDENTRYTYPE),
            _ => Err(DecodeError::UnknownChar(Tags::MDReqRejReason, c)),
        }
    }

    /// The value as the one ASCII byte that stands for it on the wire.
    pub fn as_bytes(&self) -> (r: Vec<u8>)
        ensures
            r@ == seq![self.spec_char() as u8],
    {
        vec![self.as_char() as u8]
    }
}

impl From<MDReqRejReason> for char {
    fn from(a: MDReqRejReason) -> (r: char) {
        a.as_char()
    }
}

impl vstd::std_specs::convert::FromSpecImpl<MDReqRejReason> for char {
    open spec fn obeys_from_spec() -> bool {
        true
    }

    open spec fn from_spec(a: MDReqRejReason) -> char {
        a.spec_char()
    }
}

impl TryFrom<char> for MDReqRejReason {
    type Error = DecodeError;

    fn try_from(v: char) -> (r: Result<MDReqRejReason, DecodeError>) {
        MDReqRejReason::from_char(v)
    }
}

impl vstd::std_specs::convert::TryFromSpecImpl<char> for MDReqRejReason {
    open spec fn obeys_try_from_spec() -> bool {
        true
    }

    open spec fn try_from_spec(v: char) -> Result<MDReqRejReason, DecodeError> {
        MDReqRejReason::spec_decode(v)
    }
}

#[derive(Debug, Clone, Copy, PartialEq, Eq, Structural)]
pub enum DeleteReason {
    CANCELATION,
    ERROR,
}

impl DeleteReason {
    pub open spec fn spec_char(self) -> char {
        match self {
            DeleteReason::CANCELATION => '0',
            DeleteReason::ERROR => '1',
        }
    }

    pub open spec fn spec_from(v: char) -> Option<DeleteReason> {
        match v {
            '0' => Some(DeleteReason::CANCELATION),
            '1' => Some(DeleteReason::ERROR),
            _ => None,
        }
    }

    pub open spec fn spec_decode(c: char) -> Result<DeleteReason, DecodeError> {
        match DeleteReason::spec_from(c) {
            Some(x) => Ok(x),
            None => Err(DecodeError::UnknownChar(Tags::DeleteReason, c)),
        }
    }

    pub fn as_char(&self) -> (r: char)
        ensures
            r == self.spec_char(),
    {
        match self {
            DeleteReason::CANCELATION => '0',
            DeleteReason::ERROR => '1',
        }
    }

    pub fn from_char(c: char) -> (r: Result<DeleteReason, DecodeError>)
        ensures
            r == DeleteReason::spec_decode(c),
    {
        match c {
            '0' => Ok(DeleteReason::CANCELATION),
            '1' => Ok(DeleteReason::ERROR),
            _ => Err(DecodeError::UnknownChar(Tags::DeleteReason, c)),
        }
    }

    /// The value as the one ASCII byte that stands for it on the wire.
    pub fn as_bytes(&self) -> (r: Vec<u8>)
        ensures
            r@ == seq![self.spec_char() as u8],
    {
        vec![self.as_char() as u8]
    }
}

impl From<DeleteReason> for char {
    fn from(a: DeleteReason) -> (r: char) {
        a.as_char()
    }
}

impl vstd::std_specs::convert::FromSpecImpl<DeleteReason> for char {
    open spec fn obeys_from_spec() -> bool {
        true
    }

    open spec fn from_spec(a: DeleteReason) -> char {
        a.spec_char()
    }
}

impl TryFrom<char> for DeleteReason {
    type Error = DecodeError;

    fn try_from(v: char) -> (r: Result<DeleteReason, DecodeError>) {
        DeleteReason::from_char(v)
    }
}

impl vstd::std_specs::convert::TryFromSpecImpl<char> for DeleteReason {
    open spec fn obeys_try_from_spec() -> bool {
        true
    }

    open spec fn try_from_spec(v: char) -> Result<DeleteReason, DecodeError> {
        DeleteReason::spec_decode(v)
    }
}

#[derive(Debug, Clone, Copy, PartialEq, Eq, Structural)]
pub enum OpenCloseSettleFlag {
    DAILY_OPEN,
    SESSION_OPEN,
    DELIVERY_SETTLEMENT_PRICE,
}

impl OpenCloseSettleFlag {
    pub open spec fn spec_char(self) -> char {
        match self {
            OpenCloseSettleFlag::DAILY_OPEN => '0',
            OpenCloseSettleFlag::SESSION_OPEN => '1',
            OpenCloseSettleFlag::DELIVERY_SETTLEMENT_PRICE => '2',
        }
    }

    pub open spec fn spec_from(v: char) -> Option<OpenCloseSettleFlag> {
        match v {
            '0' => Some(OpenCloseSettleFlag::DAILY_OPEN),
            '1' => Some(OpenCloseSettleFlag::SESSION_OPEN),
            '2' => Some(OpenCloseSettleFlag::DELIVERY_SETTLEMENT_PRICE),
            _ => None,
        }
    }

    pub open spec fn spec_decode(c: char) -> Result<OpenCloseSettleFlag, DecodeError> {
        match OpenCloseSettleFlag::spec_from(c) {
            Some(x) => Ok(x),
            None => Err(DecodeError::UnknownChar(Tags::OpenCloseSettleFlag, c)),
        }
    }

    pub fn as_char(&self) -> (r: char)
        ensures
            r == self.spec_char(),
    {
        match self {
            OpenCloseSettleFlag::DAILY_OPEN => '0',
            OpenCloseSettleFlag::SESSION_OPEN => '1',
            OpenCloseSettleFlag::DELIVERY_SETTLEMENT_PRICE => '2',
        }
    }

    pub fn from_char(c: char) -> (r: Result<OpenCloseSettleFlag, DecodeError>)
        ensures
            r == OpenCloseSettleFlag::spec_decode(c),
    {
        match c {
            '0' => Ok(OpenCloseSettleFlag::DAILY_OPEN),
            '1' => Ok(OpenCloseSettleFlag::SESSION_OPEN),
            '2' => Ok(OpenCloseSettleFlag::DELIVERY_SETTLEMENT_PRICE),
            _ => Err(DecodeError::UnknownChar(Tags::OpenCloseSettleFlag, c)),
        }
    }

    /// The value as the one ASCII byte that stands for it on the wire.
    pub fn as_bytes(&self) -> (r: Vec<u8>)
        ensures
            r@ == seq![self.spec_char() as u8],
    {
        vec![self.as_char() as u8]
    }
}

impl From<OpenCloseSettleFlag> for char {
    fn from(a: OpenCloseSettleFlag) -> (r: char) {
        a.as_char()
    }
}

impl vstd::std_specs::convert::FromSpecImpl<OpenCloseSettleFlag> for char {
    open spec fn obeys_from_spec() -> bool {
        true
    }

    open spec fn from_spec(a: OpenCloseSettleFlag) -> char {
        a.spec_char()
    }
}

impl TryFrom<char> for OpenCloseSettleFlag {
    type Error = DecodeError;

    fn try_from(v: char) -> (r: Result<OpenCloseSettleFlag, DecodeError>) {
        OpenCloseSettleFlag::from_char(v)
    }
}

impl vstd::std_specs::convert::TryFromSpecImpl<char> for OpenCloseSettleFlag {
    open spec fn obeys_try_from_spec() -> bool {
        true
    }

    open spec fn try_from_spec(v: char) -> Result<OpenCloseSettleFlag, DecodeError> {
        OpenCloseSettleFlag::spec_decode(v)
    }
}

#[derive(Debug, Clone, Copy, PartialEq, Eq, Structural)]
pub enum FinancialStatus {
    BANKRUPT,
}

impl FinancialStatus {
    pub open spec fn spec_char(self) -> char {
        match self {
            FinancialStatus::BANKRUPT => '1',
        }
    }

    pub open spec fn spec_from(v: char) -> Option<FinancialStatus> {
        match v {
            '1' => Some(FinancialStatus::BANKRUPT),
            _ => None,
        }
    }

    pub open spec fn spec_decode(c: char) -> Result<FinancialStatus, DecodeError> {
        match FinancialStatus::spec_from(c) {
            Some(x) => Ok(x),
            None => Err(DecodeError::UnknownChar(Tags::FinancialStatus, c)),
        }
    }

    pub fn as_char(&self) -> (r: char)
        ensures
            r == self.spec_char(),
    {
        match self {
            FinancialStatus::BANKRUPT => '1',
        }
    }

    pub fn from_char(c: char) -> (r: Result<FinancialStatus, DecodeError>)
        ensures
            r == FinancialStatus::spec_decode(c),
    {
        match c {
            '1' => Ok(FinancialStatus::BANKRUPT),
            _ => Err(DecodeError::UnknownChar(Tags::FinancialStatus, c)),
        }
    }

    /// The value as the one ASCII byte that stands for it on the wire.
    pub fn as_bytes(&self) -> (r: Vec<u8>)
        ensures
            r@ == seq![self.spec_char() as u8],
    {
        vec![self.as_char() as u8]
    }
}

impl From<FinancialStatus> for char {
    fn from(a: FinancialStatus) -> (r: char) {
        a.as_char()
    }
}

impl vstd::std_specs::convert::FromSpecImpl<FinancialStatus> for char {
    open spec fn obeys_from_spec() -> bool {
        true
    }

    open spec fn from_spec(a: FinancialStatus) -> char {
        a.spec_char()
    }
}

impl TryFrom<char> for FinancialStatus {
    type Error = DecodeError;

    fn try_from(v: char) -> (r: Result<FinancialStatus, DecodeError>) {
        FinancialStatus::from_char(v)
    }
}

impl vstd::std_specs::convert::TryFromSpecImpl<char> for FinancialStatus {
    open spec fn obeys_try_from_spec() -> bool {
        true
    }

    open spec fn try_from_spec(v: char) -> Result<FinancialStatus, DecodeError> {
        FinancialStatus::spec_decode(v)
    }
}

#[derive(Debug, Clone, Copy, PartialEq, Eq, Structural)]
pub enum CorporateAction {
    EX_DIVIDEND,
    EX_DISTRIBUTION,
    EX_RIGHTS,
    NEW,
    EX_INTEREST,
}

impl CorporateAction {
    pub open spec fn spec_char(self) -> char {
        match self {
            CorporateAction::EX_DIVIDEND => 'A',
            CorporateAction::EX_DISTRIBUTION => 'B',
            CorporateAction::EX_RIGHTS => 'C',
            CorporateAction::NEW => 'D',
            CorporateAction::EX_INTEREST => 'E',
        }
    }

    pub open spec fn spec_from(v: char) -> Option<CorporateAction> {
        match v {
            'A' => Some(CorporateAction::EX_DIVIDEND),
            'B' => Some(CorporateAction::EX_DISTRIBUTION),
            'C' => Some(CorporateAction::EX_RIGHTS),
            'D' => Some(CorporateAction::NEW),
            'E' => Some(CorporateAction::EX_INTEREST),
            _ => None,
        }
    }

    pub open spec fn spec_decode(c: char) -> Result<CorporateAction, DecodeError> {
        match CorporateAction::spec_from(c) {
            Some(x) => Ok(x),
            None => Err(DecodeError::UnknownChar(Tags::CorporateAction, c)),
        }
    }

    pub fn as_char(&self) -> (r: char)
        ensures
            r == self.spec_char(),
    {
        match self {
            CorporateAction::EX_DIVIDEND => 'A',
            CorporateAction::EX_DISTRIBUTION => 'B',
            CorporateAction::EX_RIGHTS => 'C',
            CorporateAction::NEW => 'D',
            CorporateAction::EX_INTEREST => 'E',
        }
    }

    pub fn from_char(c: char) -> (r: Result<CorporateAction, DecodeError>)
        ensures
            r == CorporateAction::spec_decode(c),
    {
        match c {
            'A' => Ok(CorporateAction::EX_DIVIDEND),
            'B' => Ok(CorporateAction::EX_DISTRIBUTION),
            'C' => Ok(CorporateAction::EX_RIGHTS),
            'D' => Ok(CorporateAction::NEW),
            'E' => Ok(CorporateAction::EX_INTEREST),
            _ => Err(DecodeError::UnknownChar(Tags::CorporateAction, c)),
        }
    }

    /// The value as the one ASCII byte that stands for it on the wire.
    pub fn as_bytes(&self) -> (r: Vec<u8>)
        ensures
            r@ == seq![self.spec_char() as u8],
    {
        vec![self.as_char() as u8]
    }
}

impl From<CorporateAction> for char {
    fn from(a: CorporateAction) -> (r: char) {
        a.as_char()
    }
}

impl vstd::std_specs::convert::FromSpecImpl<CorporateAction> for char {
    open spec fn obeys_from_spec() -> bool {
        true
    }

    open spec fn from_spec(a: CorporateAction) -> char {
        a.spec_char()
    }
}

impl TryFrom<char> for CorporateAction {
    type Error = DecodeError;

    fn try_from(v: char) -> (r: Result<CorporateAction, DecodeError>) {
        CorporateAction::from_char(v)
    }
}

impl vstd::std_specs::convert::TryFromSpecImpl<char> for CorporateAction {
    open spec fn obeys_try_from_spec() -> bool {
        true
    }

    open spec fn try_from_spec(v: char) -> Result<CorporateAction, DecodeError> {
        CorporateAction::spec_decode(v)
    }
}

#[derive(Debug, Clone, Copy, PartialEq, Eq, Structural)]
pub enum QuoteAckStatus {
    ACCEPTED,
    CANCELED_FOR_SYMBOL,
    CANCELED_FOR_SECURITY_TYPE,
    CANCELED_FOR_UNDERLYING,
    CANCELED_ALL,
    REJECTED,
}

impl QuoteAckStatus {
    pub open spec fn spec_num(self) -> u8 {
        match self {
            QuoteAckStatus::ACCEPTED => 0,
            QuoteAckStatus::CANCELED_FOR_SYMBOL => 1,
            QuoteAckStatus::CANCELED_FOR_SECURITY_TYPE => 2,
            QuoteAckStatus::CANCELED_FOR_UNDERLYING => 3,
            QuoteAckStatus::CANCELED_ALL => 4,
            QuoteAckStatus::REJECTED => 5,
        }
    }

    pub open spec fn spec_from(v: u8) -> Option<QuoteAckStatus> {
        match v {
            0 => Some(QuoteAckStatus::ACCEPTED),
            1 => Some(QuoteAckStatus::CANCELED_FOR_SYMBOL),
            2 => Some(QuoteAckStatus::CANCELED_FOR_SECURITY_TYPE),
            3 => Some(QuoteAckStatus::CANCELED_FOR_UNDERLYING),
            4 => Some(QuoteAckStatus::CANCELED_ALL),
            5 => Some(QuoteAckStatus::REJECTED),
            _ => None,
        }
    }

    pub open spec fn spec_decode(c: u8) -> Result<QuoteAckStatus, DecodeError> {
        match QuoteAckStatus::spec_from(c) {
            Some(x) => Ok(x),
            None => Err(DecodeError::UnknownInt(Tags::QuoteAckStatus, c)),
        }
    }

    pub fn as_u8(&self) -> (r: u8)
        ensures
            r == self.spec_num(),
    {
        match self {
            QuoteAckStatus::ACCEPTED => 0,
            QuoteAckStatus::CANCELED_FOR_SYMBOL => 1,
            QuoteAckStatus::CANCELED_FOR_SECURITY_TYPE => 2,
            QuoteAckStatus::CANCELED_FOR_UNDERLYING => 3,
            QuoteAckStatus::CANCELED_ALL => 4,
            QuoteAckStatus::REJECTED => 5,
        }
    }

    pub fn from_u8(c: u8) -> (r: Result<QuoteAckStatus, DecodeError>)
        ensures
            r == QuoteAckStatus::spec_decode(c),
    {
        match c {
            0 => Ok(QuoteAckStatus::ACCEPTED),
            1 => Ok(QuoteAckStatus::CANCELED_FOR_SYMBOL),
            2 => Ok(QuoteAckStatus::CANCELED_FOR_SECURITY_TYPE),
            3 => Ok(QuoteAckStatus::CANCELED_FOR_UNDERLYING),
            4 => Ok(QuoteAckStatus::CANCELED_ALL),
            5 => Ok(QuoteAckStatus::REJECTED),
            _ => Err(DecodeError::UnknownInt(Tags::QuoteAckStatus, c)),
        }
    }
}

impl TryFrom<u8> for QuoteAckStatus {
    type Error = DecodeError;

    fn try_from(v: u8) -> (r: Result<QuoteAckStatus, DecodeError>) {
        QuoteAckStatus::from_u8(v)
    }
}

impl vstd::std_specs::convert::TryFromSpecImpl<u8> for QuoteAckStatus {
    open spec fn obeys_try_from_spec() -> bool {
        true
    }

    open spec fn try_from_spec(v: u8) -> Result<QuoteAckStatus, DecodeError> {
        QuoteAckStatus::spec_decode(v)
    }
}

#[derive(Debug, Clone, Copy, PartialEq, Eq, Structural)]
pub enum QuoteCancelType {
    CANCEL_FOR_SYMBOL,
    CANCEL_FOR_SECURITY_TYPE,
    CANCEL_FOR_UNDERLYING_SYMBOL,
    CANCEL_FOR_ALL_QUOTES,
}

impl QuoteCancelType {
    pub open spec fn spec_num(self) -> u8 {
        match self {
            QuoteCancelType::CANCEL_FOR_SYMBOL => 1,
            QuoteCancelType::CANCEL_FOR_SECURITY_TYPE => 2,
            QuoteCancelType::CANCEL_FOR_UNDERLYING_SYMBOL => 3,
            QuoteCancelType::CANCEL_FOR_ALL_QUOTES => 4,
        }
    }

    pub open spec fn spec_from(v: u8) -> Option<QuoteCancelType> {
        match v {
            1 => Some(QuoteCancelType::CANCEL_FOR_SYMBOL),
            2 => Some(QuoteCancelType::CANCEL_FOR_SECURITY_TYPE),
            3 => Some(QuoteCancelType::CANCEL_FOR_UNDERLYING_SYMBOL),
            4 => Some(QuoteCancelType::CANCEL_FOR_ALL_QUOTES),
            _ => None,
        }
    }

    pub open spec fn spec_decode(c: u8) -> Result<QuoteCancelType, DecodeError> {
        match QuoteCancelType::spec_from(c) {
            Some(x) => Ok(x),
            None => Err(DecodeError::UnknownInt(Tags::QuoteCancelType, c)),
        }
    }

    pub fn as_u8(&self) -> (r: u8)
        ensures
            r == self.spec_num(),
    {
        match self {
            QuoteCancelType::CANCEL_FOR_SYMBOL => 1,
            QuoteCancelType::CANCEL_FOR_SECURITY_TYPE => 2,
            QuoteCancelType::CANCEL_FOR_UNDERLYING_SYMBOL => 3,
            QuoteCancelType::CANCEL_FOR_ALL_QUOTES => 4,
        }
    }

    pub fn from_u8(c: u8) -> (r: Result<QuoteCancelType, DecodeError>)
        ensures
            r == QuoteCancelType::spec_decode(c),
    {
        match c {
            1 => Ok(QuoteCancelType::CANCEL_FOR_SYMBOL),
            2 => Ok(QuoteCancelType::CANCEL_FOR_SECURITY_TYPE),
            3 => Ok(QuoteCancelType::CANCEL_FOR_UNDERLYING_SYMBOL),
            4 => Ok(QuoteCancelType::CANCEL_FOR_ALL_QUOTES),
            _ => Err(DecodeError::UnknownInt(Tags::QuoteCancelType, c)),
        }
    }
}

impl TryFrom<u8> for QuoteCancelType {
    type Error = DecodeError;

    fn try_from(v: u8) -> (r: Result<QuoteCancelType, DecodeError>) {
        QuoteCancelType::from_u8(v)
    }
}

impl vstd::std_specs::convert::TryFromSpecImpl<u8> for QuoteCancelType {
    open spec fn obeys_try_from_spec() -> bool {
        true
    }

    open spec fn try_from_spec(v: u8) -> Result<QuoteCancelType, DecodeError> {
        QuoteCancelType::spec_decode(v)
    }
}

#[derive(Debug, Clone, Copy, PartialEq, Eq, Structural)]
pub enum QuoteRejectReason {
    UNKNOWN_SYMBOL,
    EXCHANGE,
    QUOTE_REQUEST_EXCEEDS_LIMIT,
    TOO_LATE_TO_ENTER,
    UNKNOWN_QUOTE,
    DUPLICATE_QUOTE,
    INVALID_BID_ASK_SPREAD,
    INVALID_PRICE,
    NOT_AUTHORIZED_TO_QUOTE_SECURITY,
}

impl QuoteRejectReason {
    pub open spec fn spec_num(self) -> u8 {
        match self {
            QuoteRejectReason::UNKNOWN_SYMBOL => 1,
            QuoteRejectReason::EXCHANGE => 2,
            QuoteRejectReason::QUOTE_REQUEST_EXCEEDS_LIMIT => 3,
            QuoteRejectReason::TOO_LATE_TO_ENTER => 4,
            QuoteRejectReason::UNKNOWN_QUOTE => 5,
            QuoteRejectReason::DUPLICATE_QUOTE => 6,
            QuoteRejectReason::INVALID_BID_ASK_SPREAD => 7,
            QuoteRejectReason::INVALID_PRICE => 8,
            QuoteRejectReason::NOT_AUTHORIZED_TO_QUOTE_SECURITY => 9,
        }
    }

    pub open spec fn spec_from(v: u8) -> Option<QuoteRejectReason> {
        match v {
            1 => Some(QuoteRejectReason::UNKNOWN_SYMBOL),
            2 => Some(QuoteRejectReason::EXCHANGE),
            3 => Some(QuoteRejectReason::QUOTE_REQUEST_EXCEEDS_LIMIT),
            4 => Some(QuoteRejectReason::TOO_LATE_TO_ENTER),
            5 => Some(QuoteRejectReason::UNKNOWN_QUOTE),
            6 => Some(QuoteRejectReason::DUPLICATE_QUOTE),
            7 => Some(QuoteRejectReason::INVALID_BID_ASK_SPREAD),
            8 => Some(QuoteRejectReason::INVALID_PRICE),
            9 => Some(QuoteRejectReason::NOT_AUTHORIZED_TO_QUOTE_SECURITY),
            _ => None,
        }
    }

    pub open spec fn spec_decode(c: u8) -> Result<QuoteRejectReason, DecodeError> {
        match QuoteRejectReason::spec_from(c) {
            Some(x) => Ok(x),
            None => Err(DecodeError::UnknownInt(Tags::QuoteRejectReason, c)),
        }
    }

    pub fn as_u8(&self) -> (r: u8)
        ensures
            r == self.spec_num(),
    {
        match self {
            QuoteRejectReason::UNKNOWN_SYMBOL => 1,
            QuoteRejectReason::EXCHANGE => 2,
            QuoteRejectReason::QUOTE_REQUEST_EXCEEDS_LIMIT => 3,
            QuoteRejectReason::TOO_LATE_TO_ENTER => 4,
            QuoteRejectReason::UNKNOWN_QUOTE => 5,
            QuoteRejectReason::DUPLICATE_QUOTE => 6,
            QuoteRejectReason::INVALID_BID_ASK_SPREAD => 7,
            QuoteRejectReason::INVALID_PRICE => 8,
            QuoteRejectReason::NOT_AUTHORIZED_TO_QUOTE_SECURITY => 9,
        }
    }

    pub fn from_u8(c: u8) -> (r: Result<QuoteRejectReason, DecodeError>)
        ensures
            r == QuoteRejectReason::spec_decode(c),
    {
        match c {
            1 => Ok(QuoteRejectReason::UNKNOWN_SYMBOL),
            2 => Ok(QuoteRejectReason::EXCHANGE),
            3 => Ok(QuoteRejectReason::QUOTE_REQUEST_EXCEEDS_LIMIT),
            4 => Ok(QuoteRejectReason::TOO_LATE_TO_ENTER),
            5 => Ok(QuoteRejectReason::UNKNOWN_QUOTE),
            6 => Ok(QuoteRejectReason::DUPLICATE_QUOTE),
            7 => Ok(QuoteRejectReason::INVALID_BID_ASK_SPREAD),
            8 => Ok(QuoteRejectReason::INVALID_PRICE),
            9 => Ok(QuoteRejectReason::NOT_AUTHORIZED_TO_QUOTE_SECURITY),
            _ => Err(DecodeError::UnknownInt(Tags::QuoteRejectReason, c)),
        }
    }
}

impl TryFrom<u8> for QuoteRejectReason {
    type Error = DecodeError;

    fn try_from(v: u8) -> (r: Result<QuoteRejectReason, DecodeError>) {
        QuoteRejectReason::from_u8(v)
    }
}

impl vstd::std_specs::convert::TryFromSpecImpl<u8> for QuoteRejectReason {
    open spec fn obeys_try_from_spec() -> bool {
        true
    }

    open spec fn try_from_spec(v: u8) -> Result<QuoteRejectReason, DecodeError> {
        QuoteRejectReason::spec_decode(v)
    }
}

#[derive(Debug, Clone, Copy, PartialEq, Eq, Structural)]
pub enum QuoteResponseLevel {
    NO_ACKNOWLEDGEMENT,
    ACKNOWLEDGE_ONLY_NEGATIVE_OR_ERRONEOUS_QUOTES,
    ACKNOWLEDGE_EACH_QUOTE_MESSAGES,
}

impl QuoteResponseLevel {
    pub open spec fn spec_num(self) -> u8 {
        match self {
            QuoteResponseLevel::NO_ACKNOWLEDGEMENT => 0,
            QuoteResponseLevel::ACKNOWLEDGE_ONLY_NEGATIVE_OR_ERRONEOUS_QUOTES => 1,
            QuoteResponseLevel::ACKNOWLEDGE_EACH_QUOTE_MESSAGES => 2,
        }
    }

    pub open spec fn spec_from(v: u8) -> Option<QuoteResponseLevel> {
        match v {
            0 => Some(QuoteResponseLevel::NO_ACKNOWLEDGEMENT),
            1 => Some(QuoteResponseLevel::ACKNOWLEDGE_ONLY_NEGATIVE_OR_ERRONEOUS_QUOTES),
            2 => Some(QuoteResponseLevel::ACKNOWLEDGE_EACH_QUOTE_MESSAGES),
            _ => None,
        }
    }

    pub open spec fn spec_decode(c: u8) -> Result<QuoteResponseLevel, DecodeError> {
        match QuoteResponseLevel::spec_from(c) {
            Some(x) => Ok(x),
            None => Err(DecodeError::UnknownInt(Tags::QuoteResponseLevel, c)),
        }
    }

    pub fn as_u8(&self) -> (r: u8)
        ensures
            r == self.spec_num(),
    {
        match self {
            QuoteResponseLevel::NO_ACKNOWLEDGEMENT => 0,
            QuoteResponseLevel::ACKNOWLEDGE_ONLY_NEGATIVE_OR_ERRONEOUS_QUOTES => 1,
            QuoteResponseLevel::ACKNOWLEDGE_EACH_QUOTE_MESSAGES => 2,
        }
    }

    pub fn from_u8(c: u8) -> (r: Result<QuoteResponseLevel, DecodeError>)
        ensures
            r == QuoteResponseLevel::spec_decode(c),
    {
        match c {
            0 => Ok(QuoteResponseLevel::NO_ACKNOWLEDGEMENT),
            1 => Ok(QuoteResponseLevel::ACKNOWLEDGE_ONLY_NEGATIVE_OR_ERRONEOUS_QUOTES),
            2 => Ok(QuoteResponseLevel::ACKNOWLEDGE_EACH_QUOTE_MESSAGES),
            _ => Err(DecodeError::UnknownInt(Tags::QuoteResponseLevel, c)),
        }
    }
}

impl TryFrom<u8> for QuoteResponseLevel {
    type Error = DecodeError;

    fn try_from(v: u8) -> (r: Result<QuoteResponseLevel, DecodeError>) {
        QuoteResponseLevel::from_u8(v)
    }
}

impl vstd::std_specs::convert::TryFromSpecImpl<u8> for QuoteResponseLevel {
    open spec fn obeys_try_from_spec() -> bool {
        true
    }

    open spec fn try_from_spec(v: u8) -> Result<QuoteResponseLevel, DecodeError> {
        QuoteResponseLevel::spec_decode(v)
    }
}

#[derive(Debug, Clone, Copy, PartialEq, Eq, Structural)]
pub enum QuoteRequestType {
    MANUAL,
    AUTOMATIC,
}

impl QuoteRequestType {
    pub open spec fn spec_num(self) -> u8 {
        match self {
            QuoteRequestType::MANUAL => 1,
            QuoteRequestType::AUTOMATIC => 2,
        }
    }

    pub open spec fn spec_from(v: u8) -> Option<QuoteRequestType> {
        match v {
            1 => Some(QuoteRequestType::MANUAL),
            2 => Some(QuoteRequestType::AUTOMATIC),
            _ => None,
        }
    }

    pub open spec fn spec_decode(c: u8) -> Result<QuoteRequestType, DecodeError> {
        match QuoteRequestType::spec_from(c) {
            Some(x) => Ok(x),
            None => Err(DecodeError::UnknownInt(Tags::QuoteRequestType, c)),
        }
    }

    pub fn as_u8(&self) -> (r: u8)
        ensures
            r == self.spec_num(),
    {
        match self {
            QuoteRequestType::MANUAL => 1,
            QuoteRequestType::AUTOMATIC => 2,
        }
    }

    pub fn from_u8(c: u8) -> (r: Result<QuoteRequestType, DecodeError>)
        ensures
            r == QuoteRequestType::spec_decode(c),
    {
        match c {
            1 => Ok(QuoteRequestType::MANUAL),
            2 => Ok(QuoteRequestType::AUTOMATIC),
            _ => Err(DecodeError::UnknownInt(Tags::QuoteRequestType, c)),
        }
    }
}

impl TryFrom<u8> for QuoteRequestType {
    type Error = DecodeError;

    fn try_from(v: u8) -> (r: Result<QuoteRequestType, DecodeError>) {
        QuoteRequestType::from_u8(v)
    }
}

impl vstd::std_specs::convert::TryFromSpecImpl<u8> for QuoteRequestType {
    open spec fn obeys_try_from_spec() -> bool {
        true
    }

    open spec fn try_from_spec(v: u8) -> Result<QuoteRequestType, DecodeError> {
        QuoteRequestType::spec_decode(v)
    }
}

#[derive(Debug, Clone, Copy, PartialEq, Eq, Structural)]
pub enum SecurityRequestType {
    REQUEST_SECURITY_IDENTITY_AND_SPECIFICATIONS,
    REQUEST_SECURITY_IDENTITY_FOR_THE_SPECIFICATIONS_PROVIDED,
    REQUEST_LIST_SECURITY_TYPES,
    REQUEST_LIST_SECURITIES,
}

impl SecurityRequestType {
    pub open spec fn spec_num(self) -> u8 {
        match self {
            SecurityRequestType::REQUEST_SECURITY_IDENTITY_AND_SPECIFICATIONS => 0,
            SecurityRequestType::REQUEST_SECURITY_IDENTITY_FOR_THE_SPECIFICATIONS_PROVIDED => 1,
            SecurityRequestType::REQUEST_LIST_SECURITY_TYPES => 2,
            SecurityRequestType::REQUEST_LIST_SECURITIES => 3,
        }
    }

    pub open spec fn spec_from(v: u8) -> Option<SecurityRequestType> {
        match v {
            0 => Some(SecurityRequestType::REQUEST_SECURITY_IDENTITY_AND_SPECIFICATIONS),
            1 => Some(SecurityRequestType::REQUEST_SECURITY_IDENTITY_FOR_THE_SPECIFICATIONS_PROVIDED),
            2 => Some(SecurityRequestType::REQUEST_LIST_SECURITY_TYPES),
            3 => Some(SecurityRequestType::REQUEST_LIST_SECURITIES),
            _ => None,
        }
    }

    pub open spec fn spec_decode(c: u8) -> Result<SecurityRequestType, DecodeError> {
        match SecurityRequestType::spec_from(c) {
            Some(x) => Ok(x),
            None => Err(DecodeError::UnknownInt(Tags::SecurityRequestType, c)),
        }
    }

    pub fn as_u8(&self) -> (r: u8)
        ensures
            r == self.spec_num(),
    {
        match self {
            SecurityRequestType::REQUEST_SECURITY_IDENTITY_AND_SPECIFICATIONS => 0,
            SecurityRequestType::REQUEST_SECURITY_IDENTITY_FOR_THE_SPECIFICATIONS_PROVIDED => 1,
            SecurityRequestType::REQUEST_LIST_SECURITY_TYPES => 2,
            SecurityRequestType::REQUEST_LIST_SECURITIES => 3,
        }
    }

    pub fn from_u8(c: u8) -> (r: Result<SecurityRequestType, DecodeError>)
        ensures
            r == SecurityRequestType::spec_decode(c),
    {
        match c {
            0 => Ok(SecurityRequestType::REQUEST_SECURITY_IDENTITY_AND_SPECIFICATIONS),
            1 => Ok(SecurityRequestType::REQUEST_SECURITY_IDENTITY_FOR_THE_SPECIFICATIONS_PROVIDED),
            2 => Ok(SecurityRequestType::REQUEST_LIST_SECURITY_TYPES),
            3 => Ok(SecurityRequestType::REQUEST_LIST_SECURITIES),
            _ => Err(DecodeError::UnknownInt(Tags::SecurityRequestType, c)),
        }
    }
}

impl TryFrom<u8> for SecurityRequestType {
    type Error = DecodeError;

    fn try_from(v: u8) -> (r: Result<SecurityRequestType, DecodeError>) {
        SecurityRequestType::from_u8(v)
    }
}

impl vstd::std_specs::convert::TryFromSpecImpl<u8> for SecurityRequestType {
    open spec fn obeys_try_from_spec() -> bool {
        true
    }

    open spec fn try_from_spec(v: u8) -> Result<SecurityRequestType, DecodeError> {
        SecurityRequestType::spec_decode(v)
    }
}

#[derive(Debug, Clone, Copy, PartialEq, Eq, Structural)]
pub enum SecurityResponseType {
    ACCEPT_SECURITY_PROPOSAL_AS_IS,
    ACCEPT_SECURITY_PROPOSAL_WITH_REVISIONS_AS_INDICATED_IN_THE_MESSAGE,
    LIST_OF_SECURITY_TYPES_RETURNED_PER_REQUEST,
    LIST_OF_SECURITIES_RETURNED_PER_REQUEST,
    REJECT_SECURITY_PROPOSAL,
    CAN_NOT_MATCH_SELECTION_CRITERIA,
}

impl SecurityResponseType {
    pub open spec fn spec_num(self) -> u8 {
        match self {
            SecurityResponseType::ACCEPT_SECURITY_PROPOSAL_AS_IS => 1,
            SecurityResponseType::ACCEPT_SECURITY_PROPOSAL_WITH_REVISIONS_AS_INDICATED_IN_THE_MESSAGE => 2,
            SecurityResponseType::LIST_OF_SECURITY_TYPES_RETURNED_PER_REQUEST => 3,
            SecurityResponseType::LIST_OF_SECURITIES_RETURNED_PER_REQUEST => 4,
            SecurityResponseType::REJECT_SECURITY_PROPOSAL => 5,
            SecurityResponseType::CAN_NOT_MATCH_SELECTION_CRITERIA => 6,
        }
    }

    pub open spec fn spec_from(v: u8) -> Option<SecurityResponseType> {
        match v {
            1 => Some(SecurityResponseType::ACCEPT_SECURITY_PROPOSAL_AS_IS),
            2 => Some(SecurityResponseType::ACCEPT_SECURITY_PROPOSAL_WITH_REVISIONS_AS_INDICATED_IN_THE_MESSAGE),
            3 => Some(SecurityResponseType::LIST_OF_SECURITY_TYPES_RETURNED_PER_REQUEST),
            4 => Some(SecurityResponseType::LIST_OF_SECURITIES_RETURNED_PER_REQUEST),
            5 => Some(SecurityResponseType::REJECT_SECURITY_PROPOSAL),
            6 => Some(SecurityResponseType::CAN_NOT_MATCH_SELECTION_CRITERIA),
            _ => None,
        }
    }

    pub open spec fn spec_decode(c: u8) -> Result<SecurityResponseType, DecodeError> {
        match SecurityResponseType::spec_from(c) {
            Some(x) => Ok(x),
            None => Err(DecodeError::UnknownInt(Tags::SecurityResponseType, c)),
        }
    }

    pub fn as_u8(&self) -> (r: u8)
        ensures
            r == self.spec_num(),
    {
        match self {
            SecurityResponseType::ACCEPT_SECURITY_PROPOSAL_AS_IS => 1,
            SecurityResponseType::ACCEPT_SECURITY_PROPOSAL_WITH_REVISIONS_AS_INDICATED_IN_THE_MESSAGE => 2,
            SecurityResponseType::LIST_OF_SECURITY_TYPES_RETURNED_PER_REQUEST => 3,
            SecurityResponseType::LIST_OF_SECURITIES_RETURNED_PER_REQUEST => 4,
            SecurityResponseType::REJECT_SECURITY_PROPOSAL => 5,
            SecurityResponseType::CAN_NOT_MATCH_SELECTION_CRITERIA => 6,
        }
    }

    pub fn from_u8(c: u8) -> (r: Result<SecurityResponseType, DecodeError>)
        ensures
            r == SecurityResponseType::spec_decode(c),
    {
        match c {
            1 => Ok(SecurityResponseType::ACCEPT_SECURITY_PROPOSAL_AS_IS),
            2 => Ok(SecurityResponseType::ACCEPT_SECURITY_PROPOSAL_WITH_REVISIONS_AS_INDICATED_IN_THE_MESSAGE),
            3 => Ok(SecurityResponseType::LIST_OF_SECURITY_TYPES_RETURNED_PER_REQUEST),
            4 => Ok(SecurityResponseType::LIST_OF_SECURITIES_RETURNED_PER_REQUEST),
            5 => Ok(SecurityResponseType::REJECT_SECURITY_PROPOSAL),
            6 => Ok(SecurityResponseType::CAN_NOT_MATCH_SELECTION_CRITERIA),
            _ => Err(DecodeError::UnknownInt(Tags::SecurityResponseType, c)),
        }
    }
}

impl TryFrom<u8> for SecurityResponseType {
    type Error = DecodeError;

    fn try_from(v: u8) -> (r: Result<SecurityResponseType, DecodeError>) {
        SecurityResponseType::from_u8(v)
    }
}

impl vstd::std_specs::convert::TryFromSpecImpl<u8> for SecurityResponseType {
    open spec fn obeys_try_from_spec() -> bool {
        true
    }

    open spec fn try_from_spec(v: u8) -> Result<SecurityResponseType, DecodeError> {
        SecurityResponseType::spec_decode(v)
    }
}

#[derive(Debug, Clone, Copy, PartialEq, Eq, Structural)]
pub enum UnsolicitedIndicator {
    NO,
    YES,
}

impl UnsolicitedIndicator {
    pub open spec fn spec_char(self) -> char {
        match self {
            UnsolicitedIndicator::NO => 'N',
            UnsolicitedIndicator::YES => 'Y',
        }
    }

    pub open spec fn spec_from(v: char) -> Option<UnsolicitedIndicator> {
        match v {
            'N' => Some(UnsolicitedIndicator::NO),
            'Y' => Some(UnsolicitedIndicator::YES),
            _ => None,
        }
    }

    pub open spec fn spec_decode(c: char) -> Result<UnsolicitedIndicator, DecodeError> {
        match UnsolicitedIndicator::spec_from(c) {
            Some(x) => Ok(x),
            None => Err(DecodeError::UnknownChar(Tags::UnsolicitedIndicator, c)),
        }
    }

    pub fn as_char(&self) -> (r: char)
        ensures
            r == self.spec_char(),
    {
        match self {
            UnsolicitedIndicator::NO => 'N',
            UnsolicitedIndicator::YES => 'Y',
        }
    }

    pub fn from_char(c: char) -> (r: Result<UnsolicitedIndicator, DecodeError>)
        ensures
            r == UnsolicitedIndicator::spec_decode(c),
    {
        match c {
            'N' => Ok(UnsolicitedIndicator::NO),
            'Y' => Ok(UnsolicitedIndicator::YES),
            _ => Err(DecodeError::UnknownChar(Tags::UnsolicitedIndicator, c)),
        }
    }

    /// The value as the one ASCII byte that stands for it on the wire.
    pub fn as_bytes(&self) -> (r: Vec<u8>)
        ensures
            r@ == seq![self.spec_char() as u8],
    {
        vec![self.as_char() as u8]
    }
}

impl From<UnsolicitedIndicator> for char {
    fn from(a: UnsolicitedIndicator) -> (r: char) {
        a.as_char()
    }
}

impl vstd::std_specs::convert::FromSpecImpl<UnsolicitedIndicator> for char {
    open spec fn obeys_from_spec() -> bool {
        true
    }

    open spec fn from_spec(a: UnsolicitedIndicator) -> char {
        a.spec_char()
    }
}

impl TryFrom<char> for UnsolicitedIndicator {
    type Error = DecodeError;

    fn try_from(v: char) -> (r: Result<UnsolicitedIndicator, DecodeError>) {
        UnsolicitedIndicator::from_char(v)
    }
}

impl vstd::std_specs::convert::TryFromSpecImpl<char> for UnsolicitedIndicator {
    open spec fn obeys_try_from_spec() -> bool {
        true
    }

    open spec fn try_from_spec(v: char) -> Result<UnsolicitedIndicator, DecodeError> {
        UnsolicitedIndicator::spec_decode(v)
    }
}

#[derive(Debug, Clone, Copy, PartialEq, Eq, Structural)]
pub enum SecurityTradingStatus {
    OPENING_DELAY,
    MARKET_ON_CLOSE_IMBALANCE_SELL,
    NO_MARKET_IMBALANCE,
    NO_MARKET_ON_CLOSE_IMBALANCE,
    ITS_PRE_OPENING,
    NEW_PRICE_INDICATION,
    TRADE_DISSEMINATION_TIME,
    READY_TO_TRADE,
    NOT_AVAILABLE_FOR_TRADING,
    NOT_TRADED_ON_THIS_MARKET,
    TRADING_HALT,
    UNKNOWN_OR_INVALID,
    RESUME,
    NO_OPEN_NO_RESUME,
    PRICE_INDICATION,
    TRADING_RANGE_INDICATION,
    MARKET_IMBALANCE_BUY,
    MARKET_IMBALANCE_SELL,
    MARKET_ON_CLOSE_IMBALANCE_BUY,
}

impl SecurityTradingStatus {
    pub open spec fn spec_num(self) -> u8 {
        match self {
            SecurityTradingStatus::OPENING_DELAY => 1,
            SecurityTradingStatus::MARKET_ON_CLOSE_IMBALANCE_SELL => 10,
            SecurityTradingStatus::NO_MARKET_IMBALANCE => 12,
            SecurityTradingStatus::NO_MARKET_ON_CLOSE_IMBALANCE => 13,
            SecurityTradingStatus::ITS_PRE_OPENING => 14,
            SecurityTradingStatus::NEW_PRICE_INDICATION => 15,
            SecurityTradingStatus::TRADE_DISSEMINATION_TIME => 16,
            SecurityTradingStatus::READY_TO_TRADE => 17,
            SecurityTradingStatus::NOT_AVAILABLE_FOR_TRADING => 18,
            SecurityTradingStatus::NOT_TRADED_ON_THIS_MARKET => 19,
            SecurityTradingStatus::TRADING_HALT => 2,
            SecurityTradingStatus::UNKNOWN_OR_INVALID => 20,
            SecurityTradingStatus::RESUME => 3,
            SecurityTradingStatus::NO_OPEN_NO_RESUME => 4,
            SecurityTradingStatus::PRICE_INDICATION => 5,
            SecurityTradingStatus::TRADING_RANGE_INDICATION => 6,
            SecurityTradingStatus::MARKET_IMBALANCE_BUY => 7,
            SecurityTradingStatus::MARKET_IMBALANCE_SELL => 8,
            SecurityTradingStatus::MARKET_ON_CLOSE_IMBALANCE_BUY => 9,
        }
    }

    pub open spec fn spec_from(v: u8) -> Option<SecurityTradingStatus> {
        match v {
            1 => Some(SecurityTradingStatus::OPENING_DELAY),
            10 => Some(SecurityTradingStatus::MARKET_ON_CLOSE_IMBALANCE_SELL),
            12 => Some(SecurityTradingStatus::NO_MARKET_IMBALANCE),
            13 => Some(SecurityTradingStatus::NO_MARKET_ON_CLOSE_IMBALANCE),
            14 => Some(SecurityTradingStatus::ITS_PRE_OPENING),
            15 => Some(SecurityTradingStatus::NEW_PRICE_INDICATION),
            16 => Some(SecurityTradingStatus::TRADE_DISSEMINATION_TIME),
            17 => Some(SecurityTradingStatus::READY_TO_TRADE),
            18 => Some(SecurityTradingStatus::NOT_AVAILABLE_FOR_TRADING),
            19 => Some(SecurityTradingStatus::NOT_TRADED_ON_THIS_MARKET),
            2 => Some(SecurityTradingStatus::TRADING_HALT),
            20 => Some(SecurityTradingStatus::UNKNOWN_OR_INVALID),
            3 => Some(SecurityTradingStatus::RESUME),
            4 => Some(SecurityTradingStatus::NO_OPEN_NO_RESUME),
            5 => Some(SecurityTradingStatus::PRICE_INDICATION),
            6 => Some(SecurityTradingStatus::TRADING_RANGE_INDICATION),
            7 => Some(SecurityTradingStatus::MARKET_IMBALANCE_BUY),
            8 => Some(SecurityTradingStatus::MARKET_IMBALANCE_SELL),
            9 => Some(SecurityTradingStatus::MARKET_ON_CLOSE_IMBALANCE_BUY),
            _ => None,
        }
    }

    pub open spec fn spec_decode(c: u8) -> Result<SecurityTradingStatus, DecodeError> {
        match SecurityTradingStatus::spec_from(c) {
            Some(x) => Ok(x),
            None => Err(DecodeError::UnknownInt(Tags::SecurityTradingStatus, c)),
        }
    }

    pub fn as_u8(&self) -> (r: u8)
        ensures
            r == self.spec_num(),
    {
        match self {
            SecurityTradingStatus::OPENING_DELAY => 1,
            SecurityTradingStatus::MARKET_ON_CLOSE_IMBALANCE_SELL => 10,
            SecurityTradingStatus::NO_MARKET_IMBALANCE => 12,
            SecurityTradingStatus::NO_MARKET_ON_CLOSE_IMBALANCE => 13,
            SecurityTradingStatus::ITS_PRE_OPENING => 14,
            SecurityTradingStatus::NEW_PRICE_INDICATION => 15,
            SecurityTradingStatus::TRADE_DISSEMINATION_TIME => 16,
            SecurityTradingStatus::READY_TO_TRADE => 17,
            SecurityTradingStatus::NOT_AVAILABLE_FOR_TRADING => 18,
            SecurityTradingStatus::NOT_TRADED_ON_THIS_MARKET => 19,
            SecurityTradingStatus::TRADING_HALT => 2,
            SecurityTradingStatus::UNKNOWN_OR_INVALID => 20,
            SecurityTradingStatus::RESUME => 3,
            SecurityTradingStatus::NO_OPEN_NO_RESUME => 4,
            SecurityTradingStatus::PRICE_INDICATION => 5,
            SecurityTradingStatus::TRADING_RANGE_INDICATION => 6,
            SecurityTradingStatus::MARKET_IMBALANCE_BUY => 7,
            SecurityTradingStatus::MARKET_IMBALANCE_SELL => 8,
            SecurityTradingStatus::MARKET_ON_CLOSE_IMBALANCE_BUY => 9,
        }
    }

    pub fn from_u8(c: u8) -> (r: Result<SecurityTradingStatus, DecodeError>)
        ensures
            r == SecurityTradingStatus::spec_decode(c),
    {
        match c {
            1 => Ok(SecurityTradingStatus::OPENING_DELAY),
            10 => Ok(SecurityTradingStatus::MARKET_ON_CLOSE_IMBALANCE_SELL),
            12 => Ok(SecurityTradingStatus::NO_MARKET_IMBALANCE),
            13 => Ok(SecurityTradingStatus::NO_MARKET_ON_CLOSE_IMBALANCE),
            14 => Ok(SecurityTradingStatus::ITS_PRE_OPENING),
            15 => Ok(SecurityTradingStatus::NEW_PRICE_INDICATION),
            16 => Ok(SecurityTradingStatus::TRADE_DISSEMINATION_TIME),
            17 => Ok(SecurityTradingStatus::READY_TO_TRADE),
            18 => Ok(SecurityTradingStatus::NOT_AVAILABLE_FOR_TRADING),
            19 => Ok(SecurityTradingStatus::NOT_TRADED_ON_THIS_MARKET),
            2 => Ok(SecurityTradingStatus::TRADING_HALT),
            20 => Ok(SecurityTradingStatus::UNKNOWN_OR_INVALID),
            3 => Ok(SecurityTradingStatus::RESUME),
            4 => Ok(SecurityTradingStatus::NO_OPEN_NO_RESUME),
            5 => Ok(SecurityTradingStatus::PRICE_INDICATION),
            6 => Ok(SecurityTradingStatus::TRADING_RANGE_INDICATION),
            7 => Ok(SecurityTradingStatus::MARKET_IMBALANCE_BUY),
            8 => Ok(SecurityTradingStatus::MARKET_IMBALANCE_SELL),
            9 => Ok(SecurityTradingStatus::MARKET_ON_CLOSE_IMBALANCE_BUY),
            _ => Err(DecodeError::UnknownInt(Tags::SecurityTradingStatus, c)),
        }
    }
}

impl TryFrom<u8> for SecurityTradingStatus {
    type Error = DecodeError;

    fn try_from(v: u8) -> (r: Result<SecurityTradingStatus, DecodeError>) {
        SecurityTradingStatus::from_u8(v)
    }
}

impl vstd::std_specs::convert::TryFromSpecImpl<u8> for SecurityTradingStatus {
    open spec fn obeys_try_from_spec() -> bool {
        true
    }

    open spec fn try_from_spec(v: u8) -> Result<SecurityTradingStatus, DecodeError> {
        SecurityTradingStatus::spec_decode(v)
    }
}

#[derive(Debug, Clone, Copy, PartialEq, Eq, Structural)]
pub enum HaltReasonChar {
    NEWS_DISSEMINATION,
    ORDER_INFLUX,
    ORDER_IMBALANCE,
    ADDITIONAL_INFORMATION,
    NEWS_PENDING,
    EQUIPMENT_CHANGEOVER,
}

impl HaltReasonChar {
    pub open spec fn spec_char(self) -> char {
        match self {
            HaltReasonChar::NEWS_DISSEMINATION => 'D',
            HaltReasonChar::ORDER_INFLUX => 'E',
            HaltReasonChar::ORDER_IMBALANCE => 'I',
            HaltReasonChar::ADDITIONAL_INFORMATION => 'M',
            HaltReasonChar::NEWS_PENDING => 'P',
            HaltReasonChar::EQUIPMENT_CHANGEOVER => 'X',
        }
    }

    pub open spec fn spec_from(v: char) -> Option<HaltReasonChar> {
        match v {
            'D' => Some(HaltReasonChar::NEWS_DISSEMINATION),
            'E' => Some(HaltReasonChar::ORDER_INFLUX),
            'I' => Some(HaltReasonChar::ORDER_IMBALANCE),
            'M' => Some(HaltReasonChar::ADDITIONAL_INFORMATION),
            'P' => Some(HaltReasonChar::NEWS_PENDING),
            'X' => Some(HaltReasonChar::EQUIPMENT_CHANGEOVER),
            _ => None,
        }
    }

    pub open spec fn spec_decode(c: char) -> Result<HaltReasonChar, DecodeError> {
        match HaltReasonChar::spec_from(c) {
            Some(x) => Ok(x),
            None => Err(DecodeError::UnknownChar(Tags::HaltReasonChar, c)),
        }
    }

    pub fn as_char(&self) -> (r: char)
        ensures
            r == self.spec_char(),
    {
        match self {
            HaltReasonChar::NEWS_DISSEMINATION => 'D',
            HaltReasonChar::ORDER_INFLUX => 'E',
            HaltReasonChar::ORDER_IMBALANCE => 'I',
            HaltReasonChar::ADDITIONAL_INFORMATION => 'M',
            HaltReasonChar::NEWS_PENDING => 'P',
            HaltReasonChar::EQUIPMENT_CHANGEOVER => 'X',
        }
    }

    pub fn from_char(c: char) -> (r: Result<HaltReasonChar, DecodeError>)
        ensures
            r == HaltReasonChar::spec_decode(c),
    {
        match c {
            'D' => Ok(HaltReasonChar::NEWS_DISSEMINATION),
            'E' => Ok(HaltReasonChar::ORDER_INFLUX),
            'I' => Ok(HaltReasonChar::ORDER_IMBALANCE),
            'M' => Ok(HaltReasonChar::ADDITIONAL_INFORMATION),
            'P' => Ok(HaltReasonChar::NEWS_PENDING),
            'X' => Ok(HaltReasonChar::EQUIPMENT_CHANGEOVER),
            _ => Err(DecodeError::UnknownChar(Tags::HaltReasonChar, c)),
        }
    }

    /// The value as the one ASCII byte that stands for it on the wire.
    pub fn as_bytes(&self) -> (r: Vec<u8>)
        ensures
            r@ == seq![self.spec_char() as u8],
    {
        vec![self.as_char() as u8]
    }
}

impl From<HaltReasonChar> for char {
    fn from(a: HaltReasonChar) -> (r: char) {
        a.as_char()
    }
}

impl vstd::std_specs::convert::FromSpecImpl<HaltReasonChar> for char {
    open spec fn obeys_from_spec() -> bool {
        true
    }

    open spec fn from_spec(a: HaltReasonChar) -> char {
        a.spec_char()
    }
}

impl TryFrom<char> for HaltReasonChar {
    type Error = DecodeError;

    fn try_from(v: char) -> (r: Result<HaltReasonChar, DecodeError>) {
        HaltReasonChar::from_char(v)
    }
}

impl vstd::std_specs::convert::TryFromSpecImpl<char> for HaltReasonChar {
    open spec fn obeys_try_from_spec() -> bool {
        true
    }

    open spec fn try_from_spec(v: char) -> Result<HaltReasonChar, DecodeError> {
        HaltReasonChar::spec_decode(v)
    }
}

#[derive(Debug, Clone, Copy, PartialEq, Eq, Structural)]
pub enum InViewOfCommon {
    NO,
    YES,
}

impl InViewOfCommon {
    pub open spec fn spec_char(self) -> char {
        match self {
            InViewOfCommon::NO => 'N',
            InViewOfCommon::YES => 'Y',
        }
    }

    pub open spec fn spec_from(v: char) -> Option<InViewOfCommon> {
        match v {
            'N' => Some(InViewOfCommon::NO),
            'Y' => Some(InViewOfCommon::YES),
            _ => None,
        }
    }

    pub open spec fn spec_decode(c: char) -> Result<InViewOfCommon, DecodeError> {
        match InViewOfCommon::spec_from(c) {
            Some(x) => Ok(x),
            None => Err(DecodeError::UnknownChar(Tags::InViewOfCommon, c)),
        }
    }

    pub fn as_char(&self) -> (r: char)
        ensures
            r == self.spec_char(),
    {
        match self {
            InViewOfCommon::NO => 'N',
            InViewOfCommon::YES => 'Y',
        }
    }

    pub fn from_char(c: char) -> (r: Result<InViewOfCommon, DecodeError>)
        ensures
            r == InViewOfCommon::spec_decode(c),
    {
        match c {
            'N' => Ok(InViewOfCommon::NO),
            'Y' => Ok(InViewOfCommon::YES),
            _ => Err(DecodeError::UnknownChar(Tags::InViewOfCommon, c)),
        }
    }

    /// The value as the one ASCII byte that stands for it on the wire.
    pub fn as_bytes(&self) -> (r: Vec<u8>)
        ensures
            r@ == seq![self.spec_char() as u8],
    {
        vec![self.as_char() as u8]
    }
}

impl From<InViewOfCommon> for char {
    fn from(a: InViewOfCommon) -> (r: char) {
        a.as_char()
    }
}

impl vstd::std_specs::convert::FromSpecImpl<InViewOfCommon> for char {
    open spec fn obeys_from_spec() -> bool {
        true
    }

    open spec fn from_spec(a: InViewOfCommon) -> char {
        a.spec_char()
    }
}

impl TryFrom<char> for InViewOfCommon {
    type Error = DecodeError;

    fn try_from(v: char) -> (r: Result<InViewOfCommon, DecodeError>) {
        InViewOfCommon::from_char(v)
    }
}

impl vstd::std_specs::convert::TryFromSpecImpl<char> for InViewOfCommon {
    open spec fn obeys_try_from_spec() -> bool {
        true
    }

    open spec fn try_from_spec(v: char) -> Result<InViewOfCommon, DecodeError> {
        InViewOfCommon::spec_decode(v)
    }
}

#[derive(Debug, Clone, Copy, PartialEq, Eq, Structural)]
pub enum DueToRelated {
    NO,
    YES,
}

impl DueToRelated {
    pub open spec fn spec_char(self) -> char {
        match self {
            DueToRelated::NO => 'N',
            DueToRelated::YES => 'Y',
        }
    }

    pub open spec fn spec_from(v: char) -> Option<DueToRelated> {
        match v {
            'N' => Some(DueToRelated::NO),
            'Y' => Some(DueToRelated::YES),
            _ => None,
        }
    }

    pub open spec fn spec_decode(c: char) -> Result<DueToRelated, DecodeError> {
        match DueToRelated::spec_from(c) {
            Some(x) => Ok(x),
            None => Err(DecodeError::UnknownChar(Tags::DueToRelated, c)),
        }
    }

    pub fn as_char(&self) -> (r: char)
        ensures
            r == self.spec_char(),
    {
        match self {
            DueToRelated::NO => 'N',
            DueToRelated::YES => 'Y',
        }
    }

    pub fn from_char(c: char) -> (r: Result<DueToRelated, DecodeError>)
        ensures
            r == DueToRelated::spec_decode(c),
    {
        match c {
            'N' => Ok(DueToRelated::NO),
            'Y' => Ok(DueToRelated::YES),
            _ => Err(DecodeError::UnknownChar(Tags::DueToRelated, c)),
        }
    }

    /// The value as the one ASCII byte that stands for it on the wire.
    pub fn as_bytes(&self) -> (r: Vec<u8>)
        ensures
            r@ == seq![self.spec_char() as u8],
    {
        vec![self.as_char() as u8]
    }
}

impl From<DueToRelated> for char {
    fn from(a: DueToRelated) -> (r: char) {
        a.as_char()
    }
}

impl vstd::std_specs::convert::FromSpecImpl<DueToRelated> for char {
    open spec fn obeys_from_spec() -> bool {
        true
    }

    open spec fn from_spec(a: DueToRelated) -> char {
        a.spec_char()
    }
}

impl TryFrom<char> for DueToRelated {
    type Error = DecodeError;

    fn try_from(v: char) -> (r: Result<DueToRelated, DecodeError>) {
        DueToRelated::from_char(v)
    }
}

impl vstd::std_specs::convert::TryFromSpecImpl<char> for DueToRelated {
    open spec fn obeys_try_from_spec() -> bool {
        true
    }

    open spec fn try_from_spec(v: char) -> Result<DueToRelated, DecodeError> {
        DueToRelated::spec_decode(v)
    }
}

#[derive(Debug, Clone, Copy, PartialEq, Eq, Structural)]
pub enum Adjustment {
    CANCEL,
    ERROR,
    CORRECTION,
}

impl Adjustment {
    pub open spec fn spec_num(self) -> u8 {
        match self {
            Adjustment::CANCEL => 1,
            Adjustment::ERROR => 2,
            Adjustment::CORRECTION => 3,
        }
    }

    pub open spec fn spec_from(v: u8) -> Option<Adjustment> {
        match v {
            1 => Some(Adjustment::CANCEL),
            2 => Some(Adjustment::ERROR),
            3 => Some(Adjustment::CORRECTION),
            _ => None,
        }
    }

    pub open spec fn spec_decode(c: u8) -> Result<Adjustment, DecodeError> {
        match Adjustment::spec_from(c) {
            Some(x) => Ok(x),
            None => Err(DecodeError::UnknownInt(Tags::Adjustment, c)),
        }
    }

    pub fn as_u8(&self) -> (r: u8)
        ensures
            r == self.spec_num(),
    {
        match self {
            Adjustment::CANCEL => 1,
            Adjustment::ERROR => 2,
            Adjustment::CORRECTION => 3,
        }
    }

    pub fn from_u8(c: u8) -> (r: Result<Adjustment, DecodeError>)
        ensures
            r == Adjustment::spec_decode(c),
    {
        match c {
            1 => Ok(Adjustment::CANCEL),
            2 => Ok(Adjustment::ERROR),
            3 => Ok(Adjustment::CORRECTION),
            _ => Err(DecodeError::UnknownInt(Tags::Adjustment, c)),
        }
    }
}

impl TryFrom<u8> for Adjustment {
    type Error = DecodeError;

    fn try_from(v: u8) -> (r: Result<Adjustment, DecodeError>) {
        Adjustment::from_u8(v)
    }
}

impl vstd::std_specs::convert::TryFromSpecImpl<u8> for Adjustment {
    open spec fn obeys_try_from_spec() -> bool {
        true
    }

    open spec fn try_from_spec(v: u8) -> Result<Adjustment, DecodeError> {
        Adjustment::spec_decode(v)
    }
}

#[derive(Debug, Clone, Copy, PartialEq, Eq, Structural)]
pub enum TradSesMethod {
    ELECTRONIC,
    OPEN_OUTCRY,
    TWO_PARTY,
}

impl TradSesMethod {
    pub open spec fn spec_num(self) -> u8 {
        match self {
            TradSesMethod::ELECTRONIC => 1,
            TradSesMethod::OPEN_OUTCRY => 2,
            TradSesMethod::TWO_PARTY => 3,
        }
    }

    pub open spec fn spec_from(v: u8) -> Option<TradSesMethod> {
        match v {
            1 => Some(TradSesMethod::ELECTRONIC),
            2 => Some(TradSesMethod::OPEN_OUTCRY),
            3 => Some(TradSesMethod::TWO_PARTY),
            _ => None,
        }
    }

    pub open spec fn spec_decode(c: u8) -> Result<TradSesMethod, DecodeError> {
        match TradSesMethod::spec_from(c) {
            Some(x) => Ok(x),
            None => Err(DecodeError::UnknownInt(Tags::TradSesMethod, c)),
        }
    }

    pub fn as_u8(&self) -> (r: u8)
        ensures
            r == self.spec_num(),
    {
        match self {
            TradSesMethod::ELECTRONIC => 1,
            TradSesMethod::OPEN_OUTCRY => 2,
            TradSesMethod::TWO_PARTY => 3,
        }
    }

    pub fn from_u8(c: u8) -> (r: Result<TradSesMethod, DecodeError>)
        ensures
            r == TradSesMethod::spec_decode(c),
    {
        match c {
            1 => Ok(TradSesMethod::ELECTRONIC),
            2 => Ok(TradSesMethod::OPEN_OUTCRY),
            3 => Ok(TradSesMethod::TWO_PARTY),
            _ => Err(DecodeError::UnknownInt(Tags::TradSesMethod, c)),
        }
    }
}

impl TryFrom<u8> for TradSesMethod {
    type Error = DecodeError;

    fn try_from(v: u8) -> (r: Result<TradSesMethod, DecodeError>) {
        TradSesMethod::from_u8(v)
    }
}

impl vstd::std_specs::convert::TryFromSpecImpl<u8> for TradSesMethod {
    open spec fn obeys_try_from_spec() -> bool {
        true
    }

    open spec fn try_from_spec(v: u8) -> Result<TradSesMethod, DecodeError> {
        TradSesMethod::spec_decode(v)
    }
}

#[derive(Debug, Clone, Copy, PartialEq, Eq, Structural)]
pub enum TradSesMode {
    TESTING,
    SIMULATED,
    PRODUCTION,
}

impl TradSesMode {
    pub open spec fn spec_num(self) -> u8 {
        match self {
            TradSesMode::TESTING => 1,
            TradSesMode::SIMULATED => 2,
            TradSesMode::PRODUCTION => 3,
        }
    }

    pub open spec fn spec_from(v: u8) -> Option<TradSesMode> {
        match v {
            1 => Some(TradSesMode::TESTING),
            2 => Some(TradSesMode::SIMULATED),
            3 => Some(TradSesMode::PRODUCTION),
            _ => None,
        }
    }

    pub open spec fn spec_decode(c: u8) -> Result<TradSesMode, DecodeError> {
        match TradSesMode::spec_from(c) {
            Some(x) => Ok(x),
            None => Err(DecodeError::UnknownInt(Tags::TradSesMode, c)),
        }
    }

    pub fn as_u8(&self) -> (r: u8)
        ensures
            r == self.spec_num(),
    {
        match self {
            TradSesMode::TESTING => 1,
            TradSesMode::SIMULATED => 2,
            TradSesMode::PRODUCTION => 3,
        }
    }

    pub fn from_u8(c: u8) -> (r: Result<TradSesMode, DecodeError>)
        ensures
            r == TradSesMode::spec_decode(c),
    {
        match c {
            1 => Ok(TradSesMode::TESTING),
            2 => Ok(TradSesMode::SIMULATED),
            3 => Ok(TradSesMode::PRODUCTION),
            _ => Err(DecodeError::UnknownInt(Tags::TradSesMode, c)),
        }
    }
}

impl TryFrom<u8> for TradSesMode {
    type Error = DecodeError;

    fn try_from(v: u8) -> (r: Result<TradSesMode, DecodeError>) {
        TradSesMode::from_u8(v)
    }
}

impl vstd::std_specs::convert::TryFromSpecImpl<u8> for TradSesMode {
    open spec fn obeys_try_from_spec() -> bool {
        true
    }

    open spec fn try_from_spec(v: u8) -> Result<TradSesMode, DecodeError> {
        TradSesMode::spec_decode(v)
    }
}

#[derive(Debug, Clone, Copy, PartialEq, Eq, Structural)]
pub enum TradSesStatus {
    HALTED,
    OPEN,
    CLOSED,
    PRE_OPEN,
    PRE_CLOSE,
}

impl TradSesStatus {
    pub open spec fn spec_num(self) -> u8 {
        match self {
            TradSesStatus::HALTED => 1,
            TradSesStatus::OPEN => 2,
            TradSesStatus::CLOSED => 3,
            TradSesStatus::PRE_OPEN => 4,
            TradSesStatus::PRE_CLOSE => 5,
        }
    }

    pub open spec fn spec_from(v: u8) -> Option<TradSesStatus> {
        match v {
            1 => Some(TradSesStatus::HALTED),
            2 => Some(TradSesStatus::OPEN),
            3 => Some(TradSesStatus::CLOSED),
            4 => Some(TradSesStatus::PRE_OPEN),
            5 => Some(TradSesStatus::PRE_CLOSE),
            _ => None,
        }
    }

    pub open spec fn spec_decode(c: u8) -> Result<TradSesStatus, DecodeError> {
        match TradSesStatus::spec_from(c) {
            Some(x) => Ok(x),
            None => Err(DecodeError::UnknownInt(Tags::TradSesStatus, c)),
        }
    }

    pub fn as_u8(&self) -> (r: u8)
        ensures
            r == self.spec_num(),
    {
        match self {
            TradSesStatus::HALTED => 1,
            TradSesStatus::OPEN => 2,
            TradSesStatus::CLOSED => 3,
            TradSesStatus::PRE_OPEN => 4,
            TradSesStatus::PRE_CLOSE => 5,
        }
    }

    pub fn from_u8(c: u8) -> (r: Result<TradSesStatus, DecodeError>)
        ensures
            r == TradSesStatus::spec_decode(c),
    {
        match c {
            1 => Ok(TradSesStatus::HALTED),
            2 => Ok(TradSesStatus::OPEN),
            3 => Ok(TradSesStatus::CLOSED),
            4 => Ok(TradSesStatus::PRE_OPEN),
            5 => Ok(TradSesStatus::PRE_CLOSE),
            _ => Err(DecodeError::UnknownInt(Tags::TradSesStatus, c)),
        }
    }
}

impl TryFrom<u8> for TradSesStatus {
    type Error = DecodeError;

    fn try_from(v: u8) -> (r: Result<TradSesStatus, DecodeError>) {
        TradSesStatus::from_u8(v)
    }
}

impl vstd::std_specs::convert::TryFromSpecImpl<u8> for TradSesStatus {
    open spec fn obeys_try_from_spec() -> bool {
        true
    }

    open spec fn try_from_spec(v: u8) -> Result<TradSesStatus, DecodeError> {
        TradSesStatus::spec_decode(v)
    }
}

#[derive(Debug, Clone, Copy, PartialEq, Eq, Structural)]
pub enum QuoteEntryRejectReason {
    UNKNOWN_SYMBOL,
    EXCHANGE,
    QUOTE_EXCEEDS_LIMIT,
    TOO_LATE_TO_ENTER,
    UNKNOWN_QUOTE,
    DUPLICATE_QUOTE,
    INVALID_BID_ASK_SPREAD,
    INVALID_PRICE,
    NOT_AUTHORIZED_TO_QUOTE_SECURITY,
}

impl QuoteEntryRejectReason {
    pub open spec fn spec_num(self) -> u8 {
        match self {
            QuoteEntryRejectReason::UNKNOWN_SYMBOL => 1,
            QuoteEntryRejectReason::EXCHANGE => 2,
            QuoteEntryRejectReason::QUOTE_EXCEEDS_LIMIT => 3,
            QuoteEntryRejectReason::TOO_LATE_TO_ENTER => 4,
            QuoteEntryRejectReason::UNKNOWN_QUOTE => 5,
            QuoteEntryRejectReason::DUPLICATE_QUOTE => 6,
            QuoteEntryRejectReason::INVALID_BID_ASK_SPREAD => 7,
            QuoteEntryRejectReason::INVALID_PRICE => 8,
            QuoteEntryRejectReason::NOT_AUTHORIZED_TO_QUOTE_SECURITY => 9,
        }
    }

    pub open spec fn spec_from(v: u8) -> Option<QuoteEntryRejectReason> {
        match v {
            1 => Some(QuoteEntryRejectReason::UNKNOWN_SYMBOL),
            2 => Some(QuoteEntryRejectReason::EXCHANGE),
            3 => Some(QuoteEntryRejectReason::QUOTE_EXCEEDS_LIMIT),
            4 => Some(QuoteEntryRejectReason::TOO_LATE_TO_ENTER),
            5 => Some(QuoteEntryRejectReason::UNKNOWN_QUOTE),
            6 => Some(QuoteEntryRejectReason::DUPLICATE_QUOTE),
            7 => Some(QuoteEntryRejectReason::INVALID_BID_ASK_SPREAD),
            8 => Some(QuoteEntryRejectReason::INVALID_PRICE),
            9 => Some(QuoteEntryRejectReason::NOT_AUTHORIZED_TO_QUOTE_SECURITY),
            _ => None,
        }
    }

    pub open spec fn spec_decode(c: u8) -> Result<QuoteEntryRejectReason, DecodeError> {
        match QuoteEntryRejectReason::spec_from(c) {
            Some(x) => Ok(x),
            None => Err(DecodeError::UnknownInt(Tags::QuoteEntryRejectReason, c)),
        }
    }

    pub fn as_u8(&self) -> (r: u8)
        ensures
            r == self.spec_num(),
    {
        match self {
            QuoteEntryRejectReason::UNKNOWN_SYMBOL => 1,
            QuoteEntryRejectReason::EXCHANGE => 2,
            QuoteEntryRejectReason::QUOTE_EXCEEDS_LIMIT => 3,
            QuoteEntryRejectReason::TOO_LATE_TO_ENTER => 4,
            QuoteEntryRejectReason::UNKNOWN_QUOTE => 5,
            QuoteEntryRejectReason::DUPLICATE_QUOTE => 6,
            QuoteEntryRejectReason::INVALID_BID_ASK_SPREAD => 7,
            QuoteEntryRejectReason::INVALID_PRICE => 8,
            QuoteEntryRejectReason::NOT_AUTHORIZED_TO_QUOTE_SECURITY => 9,
        }
    }

    pub fn from_u8(c: u8) -> (r: Result<QuoteEntryRejectReason, DecodeError>)
        ensures
            r == QuoteEntryRejectReason::spec_decode(c),
    {
        match c {
            1 => Ok(QuoteEntryRejectReason::UNKNOWN_SYMBOL),
            2 => Ok(QuoteEntryRejectReason::EXCHANGE),
            3 => Ok(QuoteEntryRejectReason::QUOTE_EXCEEDS_LIMIT),
            4 => Ok(QuoteEntryRejectReason::TOO_LATE_TO_ENTER),
            5 => Ok(QuoteEntryRejectReason::UNKNOWN_QUOTE),
            6 => Ok(QuoteEntryRejectReason::DUPLICATE_QUOTE),
            7 => Ok(QuoteEntryRejectReason::INVALID_BID_ASK_SPREAD),
            8 => Ok(QuoteEntryRejectReason::INVALID_PRICE),
            9 => Ok(QuoteEntryRejectReason::NOT_AUTHORIZED_TO_QUOTE_SECURITY),
            _ => Err(DecodeError::UnknownInt(Tags::QuoteEntryRejectReason, c)),
        }
    }
}

impl TryFrom<u8> for QuoteEntryRejectReason {
    type Error = DecodeError;

    fn try_from(v: u8) -> (r: Result<QuoteEntryRejectReason, DecodeError>) {
        QuoteEntryRejectReason::from_u8(v)
    }
}

impl vstd::std_specs::convert::TryFromSpecImpl<u8> for QuoteEntryRejectReason {
    open spec fn obeys_try_from_spec() -> bool {
        true
    }

    open spec fn try_from_spec(v: u8) -> Result<QuoteEntryRejectReason, DecodeError> {
        QuoteEntryRejectReason::spec_decode(v)
    }
}

#[derive(Debug, Clone, Copy, PartialEq, Eq, Structural)]
pub enum SessionRejectReason {
    INVALID_TAG_NUMBER,
    REQUIRED_TAG_MISSING,
    SENDINGTIME_ACCURACY_PROBLEM,
    INVALID_MSGTYPE,
    TAG_NOT_DEFINED_FOR_THIS_MESSAGE_TYPE,
    UNDEFINED_TAG,
    TAG_SPECIFIED_WITHOUT_A_VALUE,
    VALUE_IS_INCORRECT,
    INCORRECT_DATA_FORMAT_FOR_VALUE,
    DECRYPTION_PROBLEM,
    SIGNATURE_PROBLEM,
    COMPID_PROBLEM,
}

impl SessionRejectReason {
    pub open spec fn spec_num(self) -> u8 {
        match self {
            SessionRejectReason::INVALID_TAG_NUMBER => 0,
            SessionRejectReason::REQUIRED_TAG_MISSING => 1,
            SessionRejectReason::SENDINGTIME_ACCURACY_PROBLEM => 10,
            SessionRejectReason::INVALID_MSGTYPE => 11,
            SessionRejectReason::TAG_NOT_DEFINED_FOR_THIS_MESSAGE_TYPE => 2,
            SessionRejectReason::UNDEFINED_TAG => 3,
            SessionRejectReason::TAG_SPECIFIED_WITHOUT_A_VALUE => 4,
            SessionRejectReason::VALUE_IS_INCORRECT => 5,
            SessionRejectReason::INCORRECT_DATA_FORMAT_FOR_VALUE => 6,
            SessionRejectReason::DECRYPTION_PROBLEM => 7,
            SessionRejectReason::SIGNATURE_PROBLEM => 8,
            SessionRejectReason::COMPID_PROBLEM => 9,
        }
    }

    pub open spec fn spec_from(v: u8) -> Option<SessionRejectReason> {
        match v {
            0 => Some(SessionRejectReason::INVALID_TAG_NUMBER),
            1 => Some(SessionRejectReason::REQUIRED_TAG_MISSING),
            10 => Some(SessionRejectReason::SENDINGTIME_ACCURACY_PROBLEM),
            11 => Some(SessionRejectReason::INVALID_MSGTYPE),
            2 => Some(SessionRejectReason::TAG_NOT_DEFINED_FOR_THIS_MESSAGE_TYPE),
            3 => Some(SessionRejectReason::UNDEFINED_TAG),
            4 => Some(SessionRejectReason::TAG_SPECIFIED_WITHOUT_A_VALUE),
            5 => Some(SessionRejectReason::VALUE_IS_INCORRECT),
            6 => Some(SessionRejectReason::INCORRECT_DATA_FORMAT_FOR_VALUE),
            7 => Some(SessionRejectReason::DECRYPTION_PROBLEM),
            8 => Some(SessionRejectReason::SIGNATURE_PROBLEM),
            9 => Some(SessionRejectReason::COMPID_PROBLEM),
            _ => None,
        }
    }

    pub open spec fn spec_decode(c: u8) -> Result<SessionRejectReason, DecodeError> {
        match SessionRejectReason::spec_from(c) {
            Some(x) => Ok(x),
            None => Err(DecodeError::UnknownInt(Tags::SessionRejectReason, c)),
        }
    }

    pub fn as_u8(&self) -> (r: u8)
        ensures
            r == self.spec_num(),
    {
        match self {
            SessionRejectReason::INVALID_TAG_NUMBER => 0,
            SessionRejectReason::REQUIRED_TAG_MISSING => 1,
            SessionRejectReason::SENDINGTIME_ACCURACY_PROBLEM => 10,
            SessionRejectReason::INVALID_MSGTYPE => 11,
            SessionRejectReason::TAG_NOT_DEFINED_FOR_THIS_MESSAGE_TYPE => 2,
            SessionRejectReason::UNDEFINED_TAG => 3,
            SessionRejectReason::TAG_SPECIFIED_WITHOUT_A_VALUE => 4,
            SessionRejectReason::VALUE_IS_INCORRECT => 5,
            SessionRejectReason::INCORRECT_DATA_FORMAT_FOR_VALUE => 6,
            SessionRejectReason::DECRYPTION_PROBLEM => 7,
            SessionRejectReason::SIGNATURE_PROBLEM => 8,
            SessionRejectReason::COMPID_PROBLEM => 9,
        }
    }

    pub fn from_u8(c: u8) -> (r: Result<SessionRejectReason, DecodeError>)
        ensures
            r == SessionRejectReason::spec_decode(c),
    {
        match c {
            0 => Ok(SessionRejectReason::INVALID_TAG_NUMBER),
            1 => Ok(SessionRejectReason::REQUIRED_TAG_MISSING),
            10 => Ok(SessionRejectReason::SENDINGTIME_ACCURACY_PROBLEM),
            11 => Ok(SessionRejectReason::INVALID_MSGTYPE),
            2 => Ok(SessionRejectReason::TAG_NOT_DEFINED_FOR_THIS_MESSAGE_TYPE),
            3 => Ok(SessionRejectReason::UNDEFINED_TAG),
            4 => Ok(SessionRejectReason::TAG_SPECIFIED_WITHOUT_A_VALUE),
            5 => Ok(SessionRejectReason::VALUE_IS_INCORRECT),
            6 => Ok(SessionRejectReason::INCORRECT_DATA_FORMAT_FOR_VALUE),
            7 => Ok(SessionRejectReason::DECRYPTION_PROBLEM),
            8 => Ok(SessionRejectReason::SIGNATURE_PROBLEM),
            9 => Ok(SessionRejectReason::COMPID_PROBLEM),
            _ => Err(DecodeError::UnknownInt(Tags::SessionRejectReason, c)),
        }
    }
}

impl TryFrom<u8> for SessionRejectReason {
    type Error = DecodeError;

    fn try_from(v: u8) -> (r: Result<SessionRejectReason, DecodeError>) {
        SessionRejectReason::from_u8(v)
    }
}

impl vstd::std_specs::convert::TryFromSpecImpl<u8> for SessionRejectReason {
    open spec fn obeys_try_from_spec() -> bool {
        true
    }

    open spec fn try_from_spec(v: u8) -> Result<SessionRejectReason, DecodeError> {
        SessionRejectReason::spec_decode(v)
    }
}

#[derive(Debug, Clone, Copy, PartialEq, Eq, Structural)]
pub enum BidRequestTransType {
    CANCEL,
    NO,
}

impl BidRequestTransType {
    pub open spec fn spec_char(self) -> char {
        match self {
            BidRequestTransType::CANCEL => 'C',
            BidRequestTransType::NO => 'N',
        }
    }

    pub open spec fn spec_from(v: char) -> Option<BidRequestTransType> {
        match v {
            'C' => Some(BidRequestTransType::CANCEL),
            'N' => Some(BidRequestTransType::NO),
            _ => None,
        }
    }

    pub open spec fn spec_decode(c: char) -> Result<BidRequestTransType, DecodeError> {
        match BidRequestTransType::spec_from(c) {
            Some(x) => Ok(x),
            None => Err(DecodeError::UnknownChar(Tags::BidRequestTransType, c)),
        }
    }

    pub fn as_char(&self) -> (r: char)
        ensures
            r == self.spec_char(),
    {
        match self {
            BidRequestTransType::CANCEL => 'C',
            BidRequestTransType::NO => 'N',
        }
    }

    pub fn from_char(c: char) -> (r: Result<BidRequestTransType, DecodeError>)
        ensures
            r == BidRequestTransType::spec_decode(c),
    {
        match c {
            'C' => Ok(BidRequestTransType::CANCEL),
            'N' => Ok(BidRequestTransType::NO),
            _ => Err(DecodeError::UnknownChar(Tags::BidRequestTransType, c)),
        }
    }

    /// The value as the one ASCII byte that stands for it on the wire.
    pub fn as_bytes(&self) -> (r: Vec<u8>)
        ensures
            r@ == seq![self.spec_char() as u8],
    {
        vec![self.as_char() as u8]
    }
}

impl From<BidRequestTransType> for char {
    fn from(a: BidRequestTransType) -> (r: char) {
        a.as_char()
    }
}

impl vstd::std_specs::convert::FromSpecImpl<BidRequestTransType> for char {
    open spec fn obeys_from_spec() -> bool {
        true
    }

    open spec fn from_spec(a: BidRequestTransType) -> char {
        a.spec_char()
    }
}

impl TryFrom<char> for BidRequestTransType {
    type Error = DecodeError;

    fn try_from(v: char) -> (r: Result<BidRequestTransType, DecodeError>) {
        BidRequestTransType::from_char(v)
    }
}

impl vstd::std_specs::convert::TryFromSpecImpl<char> for BidRequestTransType {
    open spec fn obeys_try_from_spec() -> bool {
        true
    }

    open spec fn try_from_spec(v: char) -> Result<BidRequestTransType, DecodeError> {
        BidRequestTransType::spec_decode(v)
    }
}

#[derive(Debug, Clone, Copy, PartialEq, Eq, Structural)]
pub enum SolicitedFlag {
    NO,
    YES,
}

impl SolicitedFlag {
    pub open spec fn spec_char(self) -> char {
        match self {
            SolicitedFlag::NO => 'N',
            SolicitedFlag::YES => 'Y',
        }
    }

    pub open spec fn spec_from(v: char) -> Option<SolicitedFlag> {
        match v {
            'N' => Some(SolicitedFlag::NO),
            'Y' => Some(SolicitedFlag::YES),
            _ => None,
        }
    }

    pub open spec fn spec_decode(c: char) -> Result<SolicitedFlag, DecodeError> {
        match SolicitedFlag::spec_from(c) {
            Some(x) => Ok(x),
            None => Err(DecodeError::UnknownChar(Tags::SolicitedFlag, c)),
        }
    }

    pub fn as_char(&self) -> (r: char)
        ensures
            r == self.spec_char(),
    {
        match self {
            SolicitedFlag::NO => 'N',
            SolicitedFlag::YES => 'Y',
        }
    }

    pub fn from_char(c: char) -> (r: Result<SolicitedFlag, DecodeError>)
        ensures
            r == SolicitedFlag::spec_decode(c),
    {
        match c {
            'N' => Ok(SolicitedFlag::NO),
            'Y' => Ok(SolicitedFlag::YES),
            _ => Err(DecodeError::UnknownChar(Tags::SolicitedFlag, c)),
        }
    }

    /// The value as the one ASCII byte that stands for it on the wire.
    pub fn as_bytes(&self) -> (r: Vec<u8>)
        ensures
            r@ == seq![self.spec_char() as u8],
    {
        vec![self.as_char() as u8]
    }
}

impl From<SolicitedFlag> for char {
    fn from(a: SolicitedFlag) -> (r: char) {
        a.as_char()
    }
}

impl vstd::std_specs::convert::FromSpecImpl<SolicitedFlag> for char {
    open spec fn obeys_from_spec() -> bool {
        true
    }

    open spec fn from_spec(a: SolicitedFlag) -> char {
        a.spec_char()
    }
}

impl TryFrom<char> for SolicitedFlag {
    type Error = DecodeError;

    fn try_from(v: char) -> (r: Result<SolicitedFlag, DecodeError>) {
        SolicitedFlag::from_char(v)
    }
}

impl vstd::std_specs::convert::TryFromSpecImpl<char> for SolicitedFlag {
    open spec fn obeys_try_from_spec() -> bool {
        true
    }

    open spec fn try_from_spec(v: char) -> Result<SolicitedFlag, DecodeError> {
        SolicitedFlag::spec_decode(v)
    }
}

#[derive(Debug, Clone, Copy, PartialEq, Eq, Structural)]
pub enum ExecRestatementReason {
    GT_CORPORATE_ACTION,
    GT_RENEWAL,
    VERBAL_CHANGE,
    REPRICING_OF_ORDER,
    BROKER_OPTION,
    PARTIAL_DECLINE_OF_ORDERQTY,
}

impl ExecRestatementReason {
    pub open spec fn spec_num(self) -> u8 {
        match self {
            ExecRestatementReason::GT_CORPORATE_ACTION => 0,
            ExecRestatementReason::GT_RENEWAL => 1,
            ExecRestatementReason::VERBAL_CHANGE => 2,
            ExecRestatementReason::REPRICING_OF_ORDER => 3,
            ExecRestatementReason::BROKER_OPTION => 4,
            ExecRestatementReason::PARTIAL_DECLINE_OF_ORDERQTY => 5,
        }
    }

    pub open spec fn spec_from(v: u8) -> Option<ExecRestatementReason> {
        match v {
            0 => Some(ExecRestatementReason::GT_CORPORATE_ACTION),
            1 => Some(ExecRestatementReason::GT_RENEWAL),
            2 => Some(ExecRestatementReason::VERBAL_CHANGE),
            3 => Some(ExecRestatementReason::REPRICING_OF_ORDER),
            4 => Some(ExecRestatementReason::BROKER_OPTION),
            5 => Some(ExecRestatementReason::PARTIAL_DECLINE_OF_ORDERQTY),
            _ => None,
        }
    }

    pub open spec fn spec_decode(c: u8) -> Result<ExecRestatementReason, DecodeError> {
        match ExecRestatementReason::spec_from(c) {
            Some(x) => Ok(x),
            None => Err(DecodeError::UnknownInt(Tags::ExecRestatementReason, c)),
        }
    }

    pub fn as_u8(&self) -> (r: u8)
        ensures
            r == self.spec_num(),
    {
        match self {
            ExecRestatementReason::GT_CORPORATE_ACTION => 0,
            ExecRestatementReason::GT_RENEWAL => 1,
            ExecRestatementReason::VERBAL_CHANGE => 2,
            ExecRestatementReason::REPRICING_OF_ORDER => 3,
            ExecRestatementReason::BROKER_OPTION => 4,
            ExecRestatementReason::PARTIAL_DECLINE_OF_ORDERQTY => 5,
        }
    }

    pub fn from_u8(c: u8) -> (r: Result<ExecRestatementReason, DecodeError>)
        ensures
            r == ExecRestatementReason::spec_decode(c),
    {
        match c {
            0 => Ok(ExecRestatementReason::GT_CORPORATE_ACTION),
            1 => Ok(ExecRestatementReason::GT_RENEWAL),
            2 => Ok(ExecRestatementReason::VERBAL_CHANGE),
            3 => Ok(ExecRestatementReason::REPRICING_OF_ORDER),
            4 => Ok(ExecRestatementReason::BROKER_OPTION),
            5 => Ok(ExecRestatementReason::PARTIAL_DECLINE_OF_ORDERQTY),
            _ => Err(DecodeError::UnknownInt(Tags::ExecRestatementReason, c)),
        }
    }
}

impl TryFrom<u8> for ExecRestatementReason {
    type Error = DecodeError;

    fn try_from(v: u8) -> (r: Result<ExecRestatementReason, DecodeError>) {
        ExecRestatementReason::from_u8(v)
    }
}

impl vstd::std_specs::convert::TryFromSpecImpl<u8> for ExecRestatementReason {
    open spec fn obeys_try_from_spec() -> bool {
        true
    }

    open spec fn try_from_spec(v: u8) -> Result<ExecRestatementReason, DecodeError> {
        ExecRestatementReason::spec_decode(v)
    }
}

#[derive(Debug, Clone, Copy, PartialEq, Eq, Structural)]
pub enum BusinessRejectReason {
    OTHER,
    UNKOWN_ID,
    UNKNOWN_SECURITY,
    UNSUPPORTED_MESSAGE_TYPE,
    APPLICATION_NOT_AVAILABLE,
    CONDITIONALLY_REQUIRED_FIELD_MISSING,
}

impl BusinessRejectReason {
    pub open spec fn spec_num(self) -> u8 {
        match self {
            BusinessRejectReason::OTHER => 0,
            BusinessRejectReason::UNKOWN_ID => 1,
            BusinessRejectReason::UNKNOWN_SECURITY => 2,
            BusinessRejectReason::UNSUPPORTED_MESSAGE_TYPE => 3,
            BusinessRejectReason::APPLICATION_NOT_AVAILABLE => 4,
            BusinessRejectReason::CONDITIONALLY_REQUIRED_FIELD_MISSING => 5,
        }
    }

    pub open spec fn spec_from(v: u8) -> Option<BusinessRejectReason> {
        match v {
            0 => Some(BusinessRejectReason::OTHER),
            1 => Some(BusinessRejectReason::UNKOWN_ID),
            2 => Some(BusinessRejectReason::UNKNOWN_SECURITY),
            3 => Some(BusinessRejectReason::UNSUPPORTED_MESSAGE_TYPE),
            4 => Some(BusinessRejectReason::APPLICATION_NOT_AVAILABLE),
            5 => Some(BusinessRejectReason::CONDITIONALLY_REQUIRED_FIELD_MISSING),
            _ => None,
        }
    }

    pub open spec fn spec_decode(c: u8) -> Result<BusinessRejectReason, DecodeError> {
        match BusinessRejectReason::spec_from(c) {
            Some(x) => Ok(x),
            None => Err(DecodeError::UnknownInt(Tags::BusinessRejectReason, c)),
        }
    }

    pub fn as_u8(&self) -> (r: u8)
        ensures
            r == self.spec_num(),
    {
        match self {
            BusinessRejectReason::OTHER => 0,
            BusinessRejectReason::UNKOWN_ID => 1,
            BusinessRejectReason::UNKNOWN_SECURITY => 2,
            BusinessRejectReason::UNSUPPORTED_MESSAGE_TYPE => 3,
            BusinessRejectReason::APPLICATION_NOT_AVAILABLE => 4,
            BusinessRejectReason::CONDITIONALLY_REQUIRED_FIELD_MISSING => 5,
        }
    }

    pub fn from_u8(c: u8) -> (r: Result<BusinessRejectReason, DecodeError>)
        ensures
            r == BusinessRejectReason::spec_decode(c),
    {
        match c {
            0 => Ok(BusinessRejectReason::OTHER),
            1 => Ok(BusinessRejectReason::UNKOWN_ID),
            2 => Ok(BusinessRejectReason::UNKNOWN_SECURITY),
            3 => Ok(BusinessRejectReason::UNSUPPORTED_MESSAGE_TYPE),
            4 => Ok(BusinessRejectReason::APPLICATION_NOT_AVAILABLE),
            5 => Ok(BusinessRejectReason::CONDITIONALLY_REQUIRED_FIELD_MISSING),
            _ => Err(DecodeError::UnknownInt(Tags::BusinessRejectReason, c)),
        }
    }
}

impl TryFrom<u8> for BusinessRejectReason {
    type Error = DecodeError;

    fn try_from(v: u8) -> (r: Result<BusinessRejectReason, DecodeError>) {
        BusinessRejectReason::from_u8(v)
    }
}

impl vstd::std_specs::convert::TryFromSpecImpl<u8> for BusinessRejectReason {
    open spec fn obeys_try_from_spec() -> bool {
        true
    }

    open spec fn try_from_spec(v: u8) -> Result<BusinessRejectReason, DecodeError> {
        BusinessRejectReason::spec_decode(v)
    }
}

#[derive(Debug, Clone, Copy, PartialEq, Eq, Structural)]
pub enum MsgDirection {
    RECEIVE,
    SEND,
}

impl MsgDirection {
    pub open spec fn spec_char(self) -> char {
        match self {
            MsgDirection::RECEIVE => 'R',
            MsgDirection::SEND => 'S',
        }
    }

    pub open spec fn spec_from(v: char) -> Option<MsgDirection> {
        match v {
            'R' => Some(MsgDirection::RECEIVE),
            'S' => Some(MsgDirection::SEND),
            _ => None,
        }
    }

    pub open spec fn spec_decode(c: char) -> Result<MsgDirection, DecodeError> {
        match MsgDirection::spec_from(c) {
            Some(x) => Ok(x),
            None => Err(DecodeError::UnknownChar(Tags::MsgDirection, c)),
        }
    }

    pub fn as_char(&self) -> (r: char)
        ensures
            r == self.spec_char(),
    {
        match self {
            MsgDirection::RECEIVE => 'R',
            MsgDirection::SEND => 'S',
        }
    }

    pub fn from_char(c: char) -> (r: Result<MsgDirection, DecodeError>)
        ensures
            r == MsgDirection::spec_decode(c),
    {
        match c {
            'R' => Ok(MsgDirection::RECEIVE),
            'S' => Ok(MsgDirection::SEND),
            _ => Err(DecodeError::UnknownChar(Tags::MsgDirection, c)),
        }
    }

    /// The value as the one ASCII byte that stands for it on the wire.
    pub fn as_bytes(&self) -> (r: Vec<u8>)
        ensures
            r@ == seq![self.spec_char() as u8],
    {
        vec![self.as_char() as u8]
    }
}

impl From<MsgDirection> for char {
    fn from(a: MsgDirection) -> (r: char) {
        a.as_char()
    }
}

impl vstd::std_specs::convert::FromSpecImpl<MsgDirection> for char {
    open spec fn obeys_from_spec() -> bool {
        true
    }

    open spec fn from_spec(a: MsgDirection) -> char {
        a.spec_char()
    }
}

impl TryFrom<char> for MsgDirection {
    type Error = DecodeError;

    fn try_from(v: char) -> (r: Result<MsgDirection, DecodeError>) {
        MsgDirection::from_char(v)
    }
}

impl vstd::std_specs::convert::TryFromSpecImpl<char> for MsgDirection {
    open spec fn obeys_try_from_spec() -> bool {
        true
    }

    open spec fn try_from_spec(v: char) -> Result<MsgDirection, DecodeError> {
        MsgDirection::spec_decode(v)
    }
}

#[derive(Debug, Clone, Copy, PartialEq, Eq, Structural)]
pub enum DiscretionInst {
    RELATED_TO_DISPLAYED_PRICE,
    RELATED_TO_MARKET_PRICE,
    RELATED_TO_PRIMARY_PRICE,
    RELATED_TO_LOCAL_PRIMARY_PRICE,
    RELATED_TO_MIDPOINT_PRICE,
    RELATED_TO_LAST_TRADE_PRICE,
}

impl DiscretionInst {
    pub open spec fn spec_char(self) -> char {
        match self {
            DiscretionInst::RELATED_TO_DISPLAYED_PRICE => '0',
            DiscretionInst::RELATED_TO_MARKET_PRICE => '1',
            DiscretionInst::RELATED_TO_PRIMARY_PRICE => '2',
            DiscretionInst::RELATED_TO_LOCAL_PRIMARY_PRICE => '3',
            DiscretionInst::RELATED_TO_MIDPOINT_PRICE => '4',
            DiscretionInst::RELATED_TO_LAST_TRADE_PRICE => '5',
        }
    }

    pub open spec fn spec_from(v: char) -> Option<DiscretionInst> {
        match v {
            '0' => Some(DiscretionInst::RELATED_TO_DISPLAYED_PRICE),
            '1' => Some(DiscretionInst::RELATED_TO_MARKET_PRICE),
            '2' => Some(DiscretionInst::RELATED_TO_PRIMARY_PRICE),
            '3' => Some(DiscretionInst::RELATED_TO_LOCAL_PRIMARY_PRICE),
            '4' => Some(DiscretionInst::RELATED_TO_MIDPOINT_PRICE),
            '5' => Some(DiscretionInst::RELATED_TO_LAST_TRADE_PRICE),
            _ => None,
        }
    }

    pub open spec fn spec_decode(c: char) -> Result<DiscretionInst, DecodeError> {
        match DiscretionInst::spec_from(c) {
            Some(x) => Ok(x),
            None => Err(DecodeError::UnknownChar(Tags::DiscretionInst, c)),
        }
    }

    pub fn as_char(&self) -> (r: char)
        ensures
            r == self.spec_char(),
    {
        match self {
            DiscretionInst::RELATED_TO_DISPLAYED_PRICE => '0',
            DiscretionInst::RELATED_TO_MARKET_PRICE => '1',
            DiscretionInst::RELATED_TO_PRIMARY_PRICE => '2',
            DiscretionInst::RELATED_TO_LOCAL_PRIMARY_PRICE => '3',
            DiscretionInst::RELATED_TO_MIDPOINT_PRICE => '4',
            DiscretionInst::RELATED_TO_LAST_TRADE_PRICE => '5',
        }
    }

    pub fn from_char(c: char) -> (r: Result<DiscretionInst, DecodeError>)
        ensures
            r == DiscretionInst::spec_decode(c),
    {
        match c {
            '0' => Ok(DiscretionInst::RELATED_TO_DISPLAYED_PRICE),
            '1' => Ok(DiscretionInst::RELATED_TO_MARKET_PRICE),
            '2' => Ok(DiscretionInst::RELATED_TO_PRIMARY_PRICE),
            '3' => Ok(DiscretionInst::RELATED_TO_LOCAL_PRIMARY_PRICE),
            '4' => Ok(DiscretionInst::RELATED_TO_MIDPOINT_PRICE),
            '5' => Ok(DiscretionInst::RELATED_TO_LAST_TRADE_PRICE),
            _ => Err(DecodeError::UnknownChar(Tags::DiscretionInst, c)),
        }
    }

    /// The value as the one ASCII byte that stands for it on the wire.
    pub fn as_bytes(&self) -> (r: Vec<u8>)
        ensures
            r@ == seq![self.spec_char() as u8],
    {
        vec![self.as_char() as u8]
    }
}

impl From<DiscretionInst> for char {
    fn from(a: DiscretionInst) -> (r: char) {
        a.as_char()
    }
}

impl vstd::std_specs::convert::FromSpecImpl<DiscretionInst> for char {
    open spec fn obeys_from_spec() -> bool {
        true
    }

    open spec fn from_spec(a: DiscretionInst) -> char {
        a.spec_char()
    }
}

impl TryFrom<char> for DiscretionInst {
    type Error = DecodeError;

    fn try_from(v: char) -> (r: Result<DiscretionInst, DecodeError>) {
        DiscretionInst::from_char(v)
    }
}

impl vstd::std_specs::convert::TryFromSpecImpl<char> for DiscretionInst {
    open spec fn obeys_try_from_spec() -> bool {
        true
    }

    open spec fn try_from_spec(v: char) -> Result<DiscretionInst, DecodeError> {
        DiscretionInst::spec_decode(v)
    }
}

#[derive(Debug, Clone, Copy, PartialEq, Eq, Structural)]
pub enum LiquidityIndType {
    FIVE_DAY_MOVING_AVERAGE,
    TWENTY_DAY_MOVING_AVERAGE,
    NORMAL_MARKET_SIZE,
    OTHER,
}

impl LiquidityIndType {
    pub open spec fn spec_num(self) -> u8 {
        match self {
            LiquidityIndType::FIVE_DAY_MOVING_AVERAGE => 1,
            LiquidityIndType::TWENTY_DAY_MOVING_AVERAGE => 2,
            LiquidityIndType::NORMAL_MARKET_SIZE => 3,
            LiquidityIndType::OTHER => 4,
        }
    }

    pub open spec fn spec_from(v: u8) -> Option<LiquidityIndType> {
        match v {
            1 => Some(LiquidityIndType::FIVE_DAY_MOVING_AVERAGE),
            2 => Some(LiquidityIndType::TWENTY_DAY_MOVING_AVERAGE),
            3 => Some(LiquidityIndType::NORMAL_MARKET_SIZE),
            4 => Some(LiquidityIndType::OTHER),
            _ => None,
        }
    }

    pub open spec fn spec_decode(c: u8) -> Result<LiquidityIndType, DecodeError> {
        match LiquidityIndType::spec_from(c) {
            Some(x) => Ok(x),
            None => Err(DecodeError::UnknownInt(Tags::LiquidityIndType, c)),
        }
    }

    pub fn as_u8(&self) -> (r: u8)
        ensures
            r == self.spec_num(),
    {
        match self {
            LiquidityIndType::FIVE_DAY_MOVING_AVERAGE => 1,
            LiquidityIndType::TWENTY_DAY_MOVING_AVERAGE => 2,
            LiquidityIndType::NORMAL_MARKET_SIZE => 3,
            LiquidityIndType::OTHER => 4,
        }
    }

    pub fn from_u8(c: u8) -> (r: Result<LiquidityIndType, DecodeError>)
        ensures
            r == LiquidityIndType::spec_decode(c),
    {
        match c {
            1 => Ok(LiquidityIndType::FIVE_DAY_MOVING_AVERAGE),
            2 => Ok(LiquidityIndType::TWENTY_DAY_MOVING_AVERAGE),
            3 => Ok(LiquidityIndType::NORMAL_MARKET_SIZE),
            4 => Ok(LiquidityIndType::OTHER),
            _ => Err(DecodeError::UnknownInt(Tags::LiquidityIndType, c)),
        }
    }
}

impl TryFrom<u8> for LiquidityIndType {
    type Error = DecodeError;

    fn try_from(v: u8) -> (r: Result<LiquidityIndType, DecodeError>) {
        LiquidityIndType::from_u8(v)
    }
}

impl vstd::std_specs::convert::TryFromSpecImpl<u8> for LiquidityIndType {
    open spec fn obeys_try_from_spec() -> bool {
        true
    }

    open spec fn try_from_spec(v: u8) -> Result<LiquidityIndType, DecodeError> {
        LiquidityIndType::spec_decode(v)
    }
}

#[derive(Debug, Clone, Copy, PartialEq, Eq, Structural)]
pub enum ExchangeForPhysical {
    NO,
    YES,
}

impl ExchangeForPhysical {
    pub open spec fn spec_char(self) -> char {
        match self {
            ExchangeForPhysical::NO => 'N',
            ExchangeForPhysical::YES => 'Y',
        }
    }

    pub open spec fn spec_from(v: char) -> Option<ExchangeForPhysical> {
        match v {
            'N' => Some(ExchangeForPhysical::NO),
            'Y' => Some(ExchangeForPhysical::YES),
            _ => None,
        }
    }

    pub open spec fn spec_decode(c: char) -> Result<ExchangeForPhysical, DecodeError> {
        match ExchangeForPhysical::spec_from(c) {
            Some(x) => Ok(x),
            None => Err(DecodeError::UnknownChar(Tags::ExchangeForPhysical, c)),
        }
    }

    pub fn as_char(&self) -> (r: char)
        ensures
            r == self.spec_char(),
    {
        match self {
            ExchangeForPhysical::NO => 'N',
            ExchangeForPhysical::YES => 'Y',
        }
    }

    pub fn from_char(c: char) -> (r: Result<ExchangeForPhysical, DecodeError>)
        ensures
            r == ExchangeForPhysical::spec_decode(c),
    {
        match c {
            'N' => Ok(ExchangeForPhysical::NO),
            'Y' => Ok(ExchangeForPhysical::YES),
            _ => Err(DecodeError::UnknownChar(Tags::ExchangeForPhysical, c)),
        }
    }

    /// The value as the one ASCII byte that stands for it on the wire.
    pub fn as_bytes(&self) -> (r: Vec<u8>)
        ensures
            r@ == seq![self.spec_char() as u8],
    {
        vec![self.as_char() as u8]
    }
}

impl From<ExchangeForPhysical> for char {
    fn from(a: ExchangeForPhysical) -> (r: char) {
        a.as_char()
    }
}

impl vstd::std_specs::convert::FromSpecImpl<ExchangeForPhysical> for char {
    open spec fn obeys_from_spec() -> bool {
        true
    }

    open spec fn from_spec(a: ExchangeForPhysical) -> char {
        a.spec_char()
    }
}

impl TryFrom<char> for ExchangeForPhysical {
    type Error = DecodeError;

    fn try_from(v: char) -> (r: Result<ExchangeForPhysical, DecodeError>) {
        ExchangeForPhysical::from_char(v)
    }
}

impl vstd::std_specs::convert::TryFromSpecImpl<char> for ExchangeForPhysical {
    open spec fn obeys_try_from_spec() -> bool {
        true
    }

    open spec fn try_from_spec(v: char) -> Result<ExchangeForPhysical, DecodeError> {
        ExchangeForPhysical::spec_decode(v)
    }
}

#[derive(Debug, Clone, Copy, PartialEq, Eq, Structural)]
pub enum ProgRptReqs {
    BUYSIDE_EXPLICITLY_REQUESTS_STATUS_USING_STATUSREQUEST,
    SELLSIDE_PERIODICALLY_SENDS_STATUS_USING_LISTSTATUS_PERIOD_OPTIONALLY_SPECIFIED_IN_PROGRESSPERIOD,
    REAL_TIME_EXECUTION_REPORTS,
}

impl ProgRptReqs {
    pub open spec fn spec_num(self) -> u8 {
        match self {
            ProgRptReqs::BUYSIDE_EXPLICITLY_REQUESTS_STATUS_USING_STATUSREQUEST => 1,
            ProgRptReqs::SELLSIDE_PERIODICALLY_SENDS_STATUS_USING_LISTSTATUS_PERIOD_OPTIONALLY_SPECIFIED_IN_PROGRESSPERIOD => 2,
            ProgRptReqs::REAL_TIME_EXECUTION_REPORTS => 3,
        }
    }

    pub open spec fn spec_from(v: u8) -> Option<ProgRptReqs> {
        match v {
            1 => Some(ProgRptReqs::BUYSIDE_EXPLICITLY_REQUESTS_STATUS_USING_STATUSREQUEST),
            2 => Some(ProgRptReqs::SELLSIDE_PERIODICALLY_SENDS_STATUS_USING_LISTSTATUS_PERIOD_OPTIONALLY_SPECIFIED_IN_PROGRESSPERIOD),
            3 => Some(ProgRptReqs::REAL_TIME_EXECUTION_REPORTS),
            _ => None,
        }
    }

    pub open spec fn spec_decode(c: u8) -> Result<ProgRptReqs, DecodeError> {
        match ProgRptReqs::spec_from(c) {
            Some(x) => Ok(x),
            None => Err(DecodeError::UnknownInt(Tags::ProgRptReqs, c)),
        }
    }

    pub fn as_u8(&self) -> (r: u8)
        ensures
            r == self.spec_num(),
    {
        match self {
            ProgRptReqs::BUYSIDE_EXPLICITLY_REQUESTS_STATUS_USING_STATUSREQUEST => 1,
            ProgRptReqs::SELLSIDE_PERIODICALLY_SENDS_STATUS_USING_LISTSTATUS_PERIOD_OPTIONALLY_SPECIFIED_IN_PROGRESSPERIOD => 2,
            ProgRptReqs::REAL_TIME_EXECUTION_REPORTS => 3,
        }
    }

    pub fn from_u8(c: u8) -> (r: Result<ProgRptReqs, DecodeError>)
        ensures
            r == ProgRptReqs::spec_decode(c),
    {
        match c {
            1 => Ok(ProgRptReqs::BUYSIDE_EXPLICITLY_REQUESTS_STATUS_USING_STATUSREQUEST),
            2 => Ok(ProgRptReqs::SELLSIDE_PERIODICALLY_SENDS_STATUS_USING_LISTSTATUS_PERIOD_OPTIONALLY_SPECIFIED_IN_PROGRESSPERIOD),
            3 => Ok(ProgRptReqs::REAL_TIME_EXECUTION_REPORTS),
            _ => Err(DecodeError::UnknownInt(Tags::ProgRptReqs, c)),
        }
    }
}

impl TryFrom<u8> for ProgRptReqs {
    type Error = DecodeError;

    fn try_from(v: u8) -> (r: Result<ProgRptReqs, DecodeError>) {
        ProgRptReqs::from_u8(v)
    }
}

impl vstd::std_specs::convert::TryFromSpecImpl<u8> for ProgRptReqs {
    open spec fn obeys_try_from_spec() -> bool {
        true
    }

    open spec fn try_from_spec(v: u8) -> Result<ProgRptReqs, DecodeError> {
        ProgRptReqs::spec_decode(v)
    }
}

#[derive(Debug, Clone, Copy, PartialEq, Eq, Structural)]
pub enum IncTaxInd {
    NET,
    GROSS,
}

impl IncTaxInd {
    pub open spec fn spec_num(self) -> u8 {
        match self {
            IncTaxInd::NET => 1,
            IncTaxInd::GROSS => 2,
        }
    }

    pub open spec fn spec_from(v: u8) -> Option<IncTaxInd> {
        match v {
            1 => Some(IncTaxInd::NET),
            2 => Some(IncTaxInd::GROSS),
            _ => None,
        }
    }

    pub open spec fn spec_decode(c: u8) -> Result<IncTaxInd, DecodeError> {
        match IncTaxInd::spec_from(c) {
            Some(x) => Ok(x),
            None => Err(DecodeError::UnknownInt(Tags::IncTaxInd, c)),
        }
    }

    pub fn as_u8(&self) -> (r: u8)
        ensures
            r == self.spec_num(),
    {
        match self {
            IncTaxInd::NET => 1,
            IncTaxInd::GROSS => 2,
        }
    }

    pub fn from_u8(c: u8) -> (r: Result<IncTaxInd, DecodeError>)
        ensures
            r == IncTaxInd::spec_decode(c),
    {
        match c {
            1 => Ok(IncTaxInd::NET),
            2 => Ok(IncTaxInd::GROSS),
            _ => Err(DecodeError::UnknownInt(Tags::IncTaxInd, c)),
        }
    }
}

impl TryFrom<u8> for IncTaxInd {
    type Error = DecodeError;

    fn try_from(v: u8) -> (r: Result<IncTaxInd, DecodeError>) {
        IncTaxInd::from_u8(v)
    }
}

impl vstd::std_specs::convert::TryFromSpecImpl<u8> for IncTaxInd {
    open spec fn obeys_try_from_spec() -> bool {
        true
    }

    open spec fn try_from_spec(v: u8) -> Result<IncTaxInd, DecodeError> {
        IncTaxInd::spec_decode(v)
    }
}

#[derive(Debug, Clone, Copy, PartialEq, Eq, Structural)]
pub enum TradeType {
    AGENCY,
    VWAP_GUARANTEE,
    GUARANTEED_CLOSE,
    RISK_TRADE,
}

impl TradeType {
    pub open spec fn spec_char(self) -> char {
        match self {
            TradeType::AGENCY => 'A',
            TradeType::VWAP_GUARANTEE => 'G',
            TradeType::GUARANTEED_CLOSE => 'J',
            TradeType::RISK_TRADE => 'R',
        }
    }

    pub open spec fn spec_from(v: char) -> Option<TradeType> {
        match v {
            'A' => Some(TradeType::AGENCY),
            'G' => Some(TradeType::VWAP_GUARANTEE),
            'J' => Some(TradeType::GUARANTEED_CLOSE),
            'R' => Some(TradeType::RISK_TRADE),
            _ => None,
        }
    }

    pub open spec fn spec_decode(c: char) -> Result<TradeType, DecodeError> {
        match TradeType::spec_from(c) {
            Some(x) => Ok(x),
            None => Err(DecodeError::UnknownChar(Tags::TradeType, c)),
        }
    }

    pub fn as_char(&self) -> (r: char)
        ensures
            r == self.spec_char(),
    {
        match self {
            TradeType::AGENCY => 'A',
            TradeType::VWAP_GUARANTEE => 'G',
            TradeType::GUARANTEED_CLOSE => 'J',
            TradeType::RISK_TRADE => 'R',
        }
    }

    pub fn from_char(c: char) -> (r: Result<TradeType, DecodeError>)
        ensures
            r == TradeType::spec_decode(c),
    {
        match c {
            'A' => Ok(TradeType::AGENCY),
            'G' => Ok(TradeType::VWAP_GUARANTEE),
            'J' => Ok(TradeType::GUARANTEED_CLOSE),
            'R' => Ok(TradeType::RISK_TRADE),
            _ => Err(DecodeError::UnknownChar(Tags::TradeType, c)),
        }
    }

    /// The value as the one ASCII byte that stands for it on the wire.
    pub fn as_bytes(&self) -> (r: Vec<u8>)
        ensures
            r@ == seq![self.spec_char() as u8],
    {
        vec![self.as_char() as u8]
    }
}

impl From<TradeType> for char {
    fn from(a: TradeType) -> (r: char) {
        a.as_char()
    }
}

impl vstd::std_specs::convert::FromSpecImpl<TradeType> for char {
    open spec fn obeys_from_spec() -> bool {
        true
    }

    open spec fn from_spec(a: TradeType) -> char {
        a.spec_char()
    }
}

impl TryFrom<char> for TradeType {
    type Error = DecodeError;

    fn try_from(v: char) -> (r: Result<TradeType, DecodeError>) {
        TradeType::from_char(v)
    }
}

impl vstd::std_specs::convert::TryFromSpecImpl<char> for TradeType {
    open spec fn obeys_try_from_spec() -> bool {
        true
    }

    open spec fn try_from_spec(v: char) -> Result<TradeType, DecodeError> {
        TradeType::spec_decode(v)
    }
}

#[derive(Debug, Clone, Copy, PartialEq, Eq, Structural)]
pub enum BasisPxType {
    CLOSING_PRICE_AT_MORNING_SESSION,
    CLOSING_PRICE,
    CURRENT_PRICE,
    SQ,
    VWAP_THROUGH_A_DAY,
    VWAP_THROUGH_A_MORNING_SESSION,
    VWAP_THROUGH_AN_AFTERNOON_SESSION,
    VWAP_THROUGH_A_DAY_EXCEPT_YORI,
    VWAP_THROUGH_A_MORNING_SESSION_EXCEPT_YORI,
    VWAP_THROUGH_AN_AFTERNOON_SESSION_EXCEPT_YORI,
    STRIKE,
    OPEN,
    OTHERS,
}

impl BasisPxType {
    pub open spec fn spec_char(self) -> char {
        match self {
            BasisPxType::CLOSING_PRICE_AT_MORNING_SESSION => '2',
            BasisPxType::CLOSING_PRICE => '3',
            BasisPxType::CURRENT_PRICE => '4',
            BasisPxType::SQ => '5',
            BasisPxType::VWAP_THROUGH_A_DAY => '6',
            BasisPxType::VWAP_THROUGH_A_MORNING_SESSION => '7',
            BasisPxType::VWAP_THROUGH_AN_AFTERNOON_SESSION => '8',
            BasisPxType::VWAP_THROUGH_A_DAY_EXCEPT_YORI => '9',
            BasisPxType::VWAP_THROUGH_A_MORNING_SESSION_EXCEPT_YORI => 'A',
            BasisPxType::VWAP_THROUGH_AN_AFTERNOON_SESSION_EXCEPT_YORI => 'B',
            BasisPxType::STRIKE => 'C',
            BasisPxType::OPEN => 'D',
            BasisPxType::OTHERS => 'Z',
        }
    }

    pub open spec fn spec_from(v: char) -> Option<BasisPxType> {
        match v {
            '2' => Some(BasisPxType::CLOSING_PRICE_AT_MORNING_SESSION),
            '3' => Some(BasisPxType::CLOSING_PRICE),
            '4' => Some(BasisPxType::CURRENT_PRICE),
            '5' => Some(BasisPxType::SQ),
            '6' => Some(BasisPxType::VWAP_THROUGH_A_DAY),
            '7' => Some(BasisPxType::VWAP_THROUGH_A_MORNING_SESSION),
            '8' => Some(BasisPxType::VWAP_THROUGH_AN_AFTERNOON_SESSION),
            '9' => Some(BasisPxType::VWAP_THROUGH_A_DAY_EXCEPT_YORI),
            'A' => Some(BasisPxType::VWAP_THROUGH_A_MORNING_SESSION_EXCEPT_YORI),
            'B' => Some(BasisPxType::VWAP_THROUGH_AN_AFTERNOON_SESSION_EXCEPT_YORI),
            'C' => Some(BasisPxType::STRIKE),
            'D' => Some(BasisPxType::OPEN),
            'Z' => Some(BasisPxType::OTHERS),
            _ => None,
        }
    }

    pub open spec fn spec_decode(c: char) -> Result<BasisPxType, DecodeError> {
        match BasisPxType::spec_from(c) {
            Some(x) => Ok(x),
            None => Err(DecodeError::UnknownChar(Tags::BasisPxType, c)),
        }
    }

    pub fn as_char(&self) -> (r: char)
        ensures
            r == self.spec_char(),
    {
        match self {
            BasisPxType::CLOSING_PRICE_AT_MORNING_SESSION => '2',
            BasisPxType::CLOSING_PRICE => '3',
            BasisPxType::CURRENT_PRICE => '4',
            BasisPxType::SQ => '5',
            BasisPxType::VWAP_THROUGH_A_DAY => '6',
            BasisPxType::VWAP_THROUGH_A_MORNING_SESSION => '7',
            BasisPxType::VWAP_THROUGH_AN_AFTERNOON_SESSION => '8',
            BasisPxType::VWAP_THROUGH_A_DAY_EXCEPT_YORI => '9',
            BasisPxType::VWAP_THROUGH_A_MORNING_SESSION_EXCEPT_YORI => 'A',
            BasisPxType::VWAP_THROUGH_AN_AFTERNOON_SESSION_EXCEPT_YORI => 'B',
            BasisPxType::STRIKE => 'C',
            BasisPxType::OPEN => 'D',
            BasisPxType::OTHERS => 'Z',
        }
    }

    pub fn from_char(c: char) -> (r: Result<BasisPxType, DecodeError>)
        ensures
            r == BasisPxType::spec_decode(c),
    {
        match c {
            '2' => Ok(BasisPxType::CLOSING_PRICE_AT_MORNING_SESSION),
            '3' => Ok(BasisPxType::CLOSING_PRICE),
            '4' => Ok(BasisPxType::CURRENT_PRICE),
            '5' => Ok(BasisPxType::SQ),
            '6' => Ok(BasisPxType::VWAP_THROUGH_A_DAY),
            '7' => Ok(BasisPxType::VWAP_THROUGH_A_MORNING_SESSION),
            '8' => Ok(BasisPxType::VWAP_THROUGH_AN_AFTERNOON_SESSION),
            '9' => Ok(BasisPxType::VWAP_THROUGH_A_DAY_EXCEPT_YORI),
            'A' => Ok(BasisPxType::VWAP_THROUGH_A_MORNING_SESSION_EXCEPT_YORI),
            'B' => Ok(BasisPxType::VWAP_THROUGH_AN_AFTERNOON_SESSION_EXCEPT_YORI),
            'C' => Ok(BasisPxType::STRIKE),
            'D' => Ok(BasisPxType::OPEN),
            'Z' => Ok(BasisPxType::OTHERS),
            _ => Err(DecodeError::UnknownChar(Tags::BasisPxType, c)),
        }
    }

    /// The value as the one ASCII byte that stands for it on the wire.
    pub fn as_bytes(&self) -> (r: Vec<u8>)
        ensures
            r@ == seq![self.spec_char() as u8],
    {
        vec![self.as_char() as u8]
    }
}

impl From<BasisPxType> for char {
    fn from(a: BasisPxType) -> (r: char) {
        a.as_char()
    }
}

impl vstd::std_specs::convert::FromSpecImpl<BasisPxType> for char {
    open spec fn obeys_from_spec() -> bool {
        true
    }

    open spec fn from_spec(a: BasisPxType) -> char {
        a.spec_char()
    }
}

impl TryFrom<char> for BasisPxType {
    type Error = DecodeError;

    fn try_from(v: char) -> (r: Result<BasisPxType, DecodeError>) {
        BasisPxType::from_char(v)
    }
}

impl vstd::std_specs::convert::TryFromSpecImpl<char> for BasisPxType {
    open spec fn obeys_try_from_spec() -> bool {
        true
    }

    open spec fn try_from_spec(v: char) -> Result<BasisPxType, DecodeError> {
        BasisPxType::spec_decode(v)
    }
}

#[derive(Debug, Clone, Copy, PartialEq, Eq, Structural)]
pub enum PriceType {
    PERCENTAGE,
    PER_SHARE,
    FIXED_AMOUNT,
}

impl PriceType {
    pub open spec fn spec_num(self) -> u8 {
        match self {
            PriceType::PERCENTAGE => 1,
            PriceType::PER_SHARE => 2,
            PriceType::FIXED_AMOUNT => 3,
        }
    }

    pub open spec fn spec_from(v: u8) -> Option<PriceType> {
        match v {
            1 => Some(PriceType::PERCENTAGE),
            2 => Some(PriceType::PER_SHARE),
            3 => Some(PriceType::FIXED_AMOUNT),
            _ => None,
        }
    }

    pub open spec fn spec_decode(c: u8) -> Result<PriceType, DecodeError> {
        match PriceType::spec_from(c) {
            Some(x) => Ok(x),
            None => Err(DecodeError::UnknownInt(Tags::PriceType, c)),
        }
    }

    pub fn as_u8(&self) -> (r: u8)
        ensures
            r == self.spec_num(),
    {
        match self {
            PriceType::PERCENTAGE => 1,
            PriceType::PER_SHARE => 2,
            PriceType::FIXED_AMOUNT => 3,
        }
    }

    pub fn from_u8(c: u8) -> (r: Result<PriceType, DecodeError>)
        ensures
            r == PriceType::spec_decode(c),
    {
        match c {
            1 => Ok(PriceType::PERCENTAGE),
            2 => Ok(PriceType::PER_SHARE),
            3 => Ok(PriceType::FIXED_AMOUNT),
            _ => Err(DecodeError::UnknownInt(Tags::PriceType, c)),
        }
    }
}

impl TryFrom<u8> for PriceType {
    type Error = DecodeError;

    fn try_from(v: u8) -> (r: Result<PriceType, DecodeError>) {
        PriceType::from_u8(v)
    }
}

impl vstd::std_specs::convert::TryFromSpecImpl<u8> for PriceType {
    open spec fn obeys_try_from_spec() -> bool {
        true
    }

    open spec fn try_from_spec(v: u8) -> Result<PriceType, DecodeError> {
        PriceType::spec_decode(v)
    }
}

#[derive(Debug, Clone, Copy, PartialEq, Eq, Structural)]
pub enum GTBookingInst {
    BOOK_OUT_ALL_TRADES_ON_DAY_OF_EXECUTION,
    ACCUMULATE_EXECUTIONS_UNTIL_ORDER_IS_FILLED_OR_EXPIRES,
    ACCUMULATE_UNTIL_VERBALLY_NOTIFIED_OTHERWISE,
}

impl GTBookingInst {
    pub open spec fn spec_num(self) -> u8 {
        match self {
            GTBookingInst::BOOK_OUT_ALL_TRADES_ON_DAY_OF_EXECUTION => 0,
            GTBookingInst::ACCUMULATE_EXECUTIONS_UNTIL_ORDER_IS_FILLED_OR_EXPIRES => 1,
            GTBookingInst::ACCUMULATE_UNTIL_VERBALLY_NOTIFIED_OTHERWISE => 2,
        }
    }

    pub open spec fn spec_from(v: u8) -> Option<GTBookingInst> {
        match v {
            0 => Some(GTBookingInst::BOOK_OUT_ALL_TRADES_ON_DAY_OF_EXECUTION),
            1 => Some(GTBookingInst::ACCUMULATE_EXECUTIONS_UNTIL_ORDER_IS_FILLED_OR_EXPIRES),
            2 => Some(GTBookingInst::ACCUMULATE_UNTIL_VERBALLY_NOTIFIED_OTHERWISE),
            _ => None,
        }
    }

    pub open spec fn spec_decode(c: u8) -> Result<GTBookingInst, DecodeError> {
        match GTBookingInst::spec_from(c) {
            Some(x) => Ok(x),
            None => Err(DecodeError::UnknownInt(Tags::GTBookingInst, c)),
        }
    }

    pub fn as_u8(&self) -> (r: u8)
        ensures
            r == self.spec_num(),
    {
        match self {
            GTBookingInst::BOOK_OUT_ALL_TRADES_ON_DAY_OF_EXECUTION => 0,
            GTBookingInst::ACCUMULATE_EXECUTIONS_UNTIL_ORDER_IS_FILLED_OR_EXPIRES => 1,
            GTBookingInst::ACCUMULATE_UNTIL_VERBALLY_NOTIFIED_OTHERWISE => 2,
        }
    }

    pub fn from_u8(c: u8) -> (r: Result<GTBookingInst, DecodeError>)
        ensures
            r == GTBookingInst::spec_decode(c),
    {
        match c {
            0 => Ok(GTBookingInst::BOOK_OUT_ALL_TRADES_ON_DAY_OF_EXECUTION),
            1 => Ok(GTBookingInst::ACCUMULATE_EXECUTIONS_UNTIL_ORDER_IS_FILLED_OR_EXPIRES),
            2 => Ok(GTBookingInst::ACCUMULATE_UNTIL_VERBALLY_NOTIFIED_OTHERWISE),
            _ => Err(DecodeError::UnknownInt(Tags::GTBookingInst, c)),
        }
    }
}

impl TryFrom<u8> for GTBookingInst {
    type Error = DecodeError;

    fn try_from(v: u8) -> (r: Result<GTBookingInst, DecodeError>) {
        GTBookingInst::from_u8(v)
    }
}

impl vstd::std_specs::convert::TryFromSpecImpl<u8> for GTBookingInst {
    open spec fn obeys_try_from_spec() -> bool {
        true
    }

    open spec fn try_from_spec(v: u8) -> Result<GTBookingInst, DecodeError> {
        GTBookingInst::spec_decode(v)
    }
}

#[derive(Debug, Clone, Copy, PartialEq, Eq, Structural)]
pub enum NetGrossInd {
    NET,
    GROSS,
}

impl NetGrossInd {
    pub open spec fn spec_num(self) -> u8 {
        match self {
            NetGrossInd::NET => 1,
            NetGrossInd::GROSS => 2,
        }
    }

    pub open spec fn spec_from(v: u8) -> Option<NetGrossInd> {
        match v {
            1 => Some(NetGrossInd::NET),
            2 => Some(NetGrossInd::GROSS),
            _ => None,
        }
    }

    pub open spec fn spec_decode(c: u8) -> Result<NetGrossInd, DecodeError> {
        match NetGrossInd::spec_from(c) {
            Some(x) => Ok(x),
            None => Err(DecodeError::UnknownInt(Tags::NetGrossInd, c)),
        }
    }

    pub fn as_u8(&self) -> (r: u8)
        ensures
            r == self.spec_num(),
    {
        match self {
            NetGrossInd::NET => 1,
            NetGrossInd::GROSS => 2,
        }
    }

    pub fn from_u8(c: u8) -> (r: Result<NetGrossInd, DecodeError>)
        ensures
            r == NetGrossInd::spec_decode(c),
    {
        match c {
            1 => Ok(NetGrossInd::NET),
            2 => Ok(NetGrossInd::GROSS),
            _ => Err(DecodeError::UnknownInt(Tags::NetGrossInd, c)),
        }
    }
}

impl TryFrom<u8> for NetGrossInd {
    type Error = DecodeError;

    fn try_from(v: u8) -> (r: Result<NetGrossInd, DecodeError>) {
        NetGrossInd::from_u8(v)
    }
}

impl vstd::std_specs::convert::TryFromSpecImpl<u8> for NetGrossInd {
    open spec fn obeys_try_from_spec() -> bool {
        true
    }

    open spec fn try_from_spec(v: u8) -> Result<NetGrossInd, DecodeError> {
        NetGrossInd::spec_decode(v)
    }
}

#[derive(Debug, Clone, Copy, PartialEq, Eq, Structural)]
pub enum ListExecInstType {
    IMMEDIATE,
    WAIT_FOR_EXECUTE_INSTRUCTION,
}

impl ListExecInstType {
    pub open spec fn spec_char(self) -> char {
        match self {
            ListExecInstType::IMMEDIATE => '1',
            ListExecInstType::WAIT_FOR_EXECUTE_INSTRUCTION => '2',
        }
    }

    pub open spec fn spec_from(v: char) -> Option<ListExecInstType> {
        match v {
            '1' => Some(ListExecInstType::IMMEDIATE),
            '2' => Some(ListExecInstType::WAIT_FOR_EXECUTE_INSTRUCTION),
            _ => None,
        }
    }

    pub open spec fn spec_decode(c: char) -> Result<ListExecInstType, DecodeError> {
        match ListExecInstType::spec_from(c) {
            Some(x) => Ok(x),
            None => Err(DecodeError::UnknownChar(Tags::ListExecInstType, c)),
        }
    }

    pub fn as_char(&self) -> (r: char)
        ensures
            r == self.spec_char(),
    {
        match self {
            ListExecInstType::IMMEDIATE => '1',
            ListExecInstType::WAIT_FOR_EXECUTE_INSTRUCTION => '2',
        }
    }

    pub fn from_char(c: char) -> (r: Result<ListExecInstType, DecodeError>)
        ensures
            r == ListExecInstType::spec_decode(c),
    {
        match c {
            '1' => Ok(ListExecInstType::IMMEDIATE),
            '2' => Ok(ListExecInstType::WAIT_FOR_EXECUTE_INSTRUCTION),
            _ => Err(DecodeError::UnknownChar(Tags::ListExecInstType, c)),
        }
    }

    /// The value as the one ASCII byte that stands for it on the wire.
    pub fn as_bytes(&self) -> (r: Vec<u8>)
        ensures
            r@ == seq![self.spec_char() as u8],
    {
        vec![self.as_char() as u8]
    }
}

impl From<ListExecInstType> for char {
    fn from(a: ListExecInstType) -> (r: char) {
        a.as_char()
    }
}

impl vstd::std_specs::convert::FromSpecImpl<ListExecInstType> for char {
    open spec fn obeys_from_spec() -> bool {
        true
    }

    open spec fn from_spec(a: ListExecInstType) -> char {
        a.spec_char()
    }
}

impl TryFrom<char> for ListExecInstType {
    type Error = DecodeError;

    fn try_from(v: char) -> (r: Result<ListExecInstType, DecodeError>) {
        ListExecInstType::from_char(v)
    }
}

impl vstd::std_specs::convert::TryFromSpecImpl<char> for ListExecInstType {
    open spec fn obeys_try_from_spec() -> bool {
        true
    }

    open spec fn try_from_spec(v: char) -> Result<ListExecInstType, DecodeError> {
        ListExecInstType::spec_decode(v)
    }
}

#[derive(Debug, Clone, Copy, PartialEq, Eq, Structural)]
pub enum CxlRejResponseTo {
    ORDER_CANCEL_REQUEST,
    ORDER_CANCEL_REPLACE_REQUEST,
}

impl CxlRejResponseTo {
    pub open spec fn spec_char(self) -> char {
        match self {
            CxlRejResponseTo::ORDER_CANCEL_REQUEST => '1',
            CxlRejResponseTo::ORDER_CANCEL_REPLACE_REQUEST => '2',
        }
    }

    pub open spec fn spec_from(v: char) -> Option<CxlRejResponseTo> {
        match v {
            '1' => Some(CxlRejResponseTo::ORDER_CANCEL_REQUEST),
            '2' => Some(CxlRejResponseTo::ORDER_CANCEL_REPLACE_REQUEST),
            _ => None,
        }
    }

    pub open spec fn spec_decode(c: char) -> Result<CxlRejResponseTo, DecodeError> {
        match CxlRejResponseTo::spec_from(c) {
            Some(x) => Ok(x),
            None => Err(DecodeError::UnknownChar(Tags::CxlRejResponseTo, c)),
        }
    }

    pub fn as_char(&self) -> (r: char)
        ensures
            r == self.spec_char(),
    {
        match self {
            CxlRejResponseTo::ORDER_CANCEL_REQUEST => '1',
            CxlRejResponseTo::ORDER_CANCEL_REPLACE_REQUEST => '2',
        }
    }

    pub fn from_char(c: char) -> (r: Result<CxlRejResponseTo, DecodeError>)
        ensures
            r == CxlRejResponseTo::spec_decode(c),
    {
        match c {
            '1' => Ok(CxlRejResponseTo::ORDER_CANCEL_REQUEST),
            '2' => Ok(CxlRejResponseTo::ORDER_CANCEL_REPLACE_REQUEST),
            _ => Err(DecodeError::UnknownChar(Tags::CxlRejResponseTo, c)),
        }
    }

    /// The value as the one ASCII byte that stands for it on the wire.
    pub fn as_bytes(&self) -> (r: Vec<u8>)
        ensures
            r@ == seq![self.spec_char() as u8],
    {
        vec![self.as_char() as u8]
    }
}

impl From<CxlRejResponseTo> for char {
    fn from(a: CxlRejResponseTo) -> (r: char) {
        a.as_char()
    }
}

impl vstd::std_specs::convert::FromSpecImpl<CxlRejResponseTo> for char {
    open spec fn obeys_from_spec() -> bool {
        true
    }

    open spec fn from_spec(a: CxlRejResponseTo) -> char {
        a.spec_char()
    }
}

impl TryFrom<char> for CxlRejResponseTo {
    type Error = DecodeError;

    fn try_from(v: char) -> (r: Result<CxlRejResponseTo, DecodeError>) {
        CxlRejResponseTo::from_char(v)
    }
}

impl vstd::std_specs::convert::TryFromSpecImpl<char> for CxlRejResponseTo {
    open spec fn obeys_try_from_spec() -> bool {
        true
    }

    open spec fn try_from_spec(v: char) -> Result<CxlRejResponseTo, DecodeError> {
        CxlRejResponseTo::spec_decode(v)
    }
}

#[derive(Debug, Clone, Copy, PartialEq, Eq, Structural)]
pub enum MultiLegReportingType {
    SINGLE_SECURITY,
    INDIVIDUAL_LEG_OF_A_MULTI_LEG_SECURITY,
    MULTI_LEG_SECURITY,
}

impl MultiLegReportingType {
    pub open spec fn spec_char(self) -> char {
        match self {
            MultiLegReportingType::SINGLE_SECURITY => '1',
            MultiLegReportingType::INDIVIDUAL_LEG_OF_A_MULTI_LEG_SECURITY => '2',
            MultiLegReportingType::MULTI_LEG_SECURITY => '3',
        }
    }

    pub open spec fn spec_from(v: char) -> Option<MultiLegReportingType> {
        match v {
            '1' => Some(MultiLegReportingType::SINGLE_SECURITY),
            '2' => Some(MultiLegReportingType::INDIVIDUAL_LEG_OF_A_MULTI_LEG_SECURITY),
            '3' => Some(MultiLegReportingType::MULTI_LEG_SECURITY),
            _ => None,
        }
    }

    pub open spec fn spec_decode(c: char) -> Result<MultiLegReportingType, DecodeError> {
        match MultiLegReportingType::spec_from(c) {
            Some(x) => Ok(x),
            None => Err(DecodeError::UnknownChar(Tags::MultiLegReportingType, c)),
        }
    }

    pub fn as_char(&self) -> (r: char)
        ensures
            r == self.spec_char(),
    {
        match self {
            MultiLegReportingType::SINGLE_SECURITY => '1',
            MultiLegReportingType::INDIVIDUAL_LEG_OF_A_MULTI_LEG_SECURITY => '2',
            MultiLegReportingType::MULTI_LEG_SECURITY => '3',
        }
    }

    pub fn from_char(c: char) -> (r: Result<MultiLegReportingType, DecodeError>)
        ensures
            r == MultiLegReportingType::spec_decode(c),
    {
        match c {
            '1' => Ok(MultiLegReportingType::SINGLE_SECURITY),
            '2' => Ok(MultiLegReportingType::INDIVIDUAL_LEG_OF_A_MULTI_LEG_SECURITY),
            '3' => Ok(MultiLegReportingType::MULTI_LEG_SECURITY),
            _ => Err(DecodeError::UnknownChar(Tags::MultiLegReportingType, c)),
        }
    }

    /// The value as the one ASCII byte that stands for it on the wire.
    pub fn as_bytes(&self) -> (r: Vec<u8>)
        ensures
            r@ == seq![self.spec_char() as u8],
    {
        vec![self.as_char() as u8]
    }
}

impl From<MultiLegReportingType> for char {
    fn from(a: MultiLegReportingType) -> (r: char) {
        a.as_char()
    }
}

impl vstd::std_specs::convert::FromSpecImpl<MultiLegReportingType> for char {
    open spec fn obeys_from_spec() -> bool {
        true
    }

    open spec fn from_spec(a: MultiLegReportingType) -> char {
        a.spec_char()
    }
}

impl TryFrom<char> for MultiLegReportingType {
    type Error = DecodeError;

    fn try_from(v: char) -> (r: Result<MultiLegReportingType, DecodeError>) {
        MultiLegReportingType::from_char(v)
    }
}

impl vstd::std_specs::convert::TryFromSpecImpl<char> for MultiLegReportingType {
    open spec fn obeys_try_from_spec() -> bool {
        true
    }

    open spec fn try_from_spec(v: char) -> Result<MultiLegReportingType, DecodeError> {
        MultiLegReportingType::spec_decode(v)
    }
}

impl MsgType {
    /// Session messages: Heartbeat, TestRequest, ResendRequest, Reject, SequenceReset, Logout
    /// and Logon.
    pub fn is_session(&self) -> (r: bool)
        ensures
            r == spec_is_session_message(self.spec_char()),
    {
        match self {
            MsgType::HEARTBEAT | MsgType::TEST_REQUEST | MsgType::RESEND_REQUEST | MsgType::REJECT
            | MsgType::SEQUENCE_RESET | MsgType::LOGOUT | MsgType::LOGON => true,
            _ => false,
        }
    }

    pub fn is_application(&self) -> (r: bool)
        ensures
            r == !spec_is_session_message(self.spec_char()),
    {
        !self.is_session()
    }
}

} // verus!
