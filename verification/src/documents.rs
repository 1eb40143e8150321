//! The GraphQL documents the client sends.
use vstd::prelude::*;

verus! {

pub const BROKER_OVERVIEW_QUERY: &'static str = r#"
query BrokerOverview(
  $accountId: ID!
  $portfolioId: ID!
  $includeYearToDate: Boolean!
) {
  account(id: $accountId) {
    brokerPortfolio(id: $portfolioId) {
      valuation(includeYearToDate: $includeYearToDate) {
        valuation
        securitiesValuation
        cryptoValuation
        timestampUtc {
          time
        }
        lastInventoryUpdateTimestampUtc {
          time
        }
        timeWeightedReturnByTimeframe {
          timeframe
          simpleAbsoluteReturn
        }
      }
    }
  }
}
"#;

pub const BROKER_ANALYTICS_QUERY: &'static str = r#"
query BrokerAnalytics($accountId: ID!, $portfolioId: ID!) {
  account(id: $accountId) {
    brokerPortfolio(id: $portfolioId) {
      portfolioAnalysis {
        type
        ... on InvalidSecuritiesPortfolioAnalysisResult {
          invalidSecurities {
            id
            isin
            name
            type
          }
          portfolioCoverage
        }
        result {
          id
          lastUpdated {
            time
          }
          healthChecks {
            id
            items {
              id
              type
              healthScore
              state
              color {
                sixDigitNotationValue
              }
              numberOfItemsInPortfolio
              maxItems
            }
          }
          scenarios {
            id
            items {
              id
              type
              portfolioPerformance
              benchmarkPerformance
              securities {
                id
                isin
                name
                type
              }
            }
          }
          allocations {
            id
            items {
              id
              type
              positions {
                id
                name
                weight
                valuation
                contributors {
                  id
                  weight
                  underlyingAsset {
                    ... on Security {
                      isin
                      name
                      inventory {
                        position {
                          filled
                        }
                      }
                    }
                    ... on CryptoCoin {
                      ticker
                      name
                    }
                  }
                }
                subpositions {
                  id
                  name
                  weight
                  valuation
                  contributors {
                    id
                    weight
                    underlyingAsset {
                      ... on Security {
                        isin
                        name
                        inventory {
                          position {
                            filled
                          }
                        }
                      }
                      ... on CryptoCoin {
                        ticker
                        name
                      }
                    }
                  }
                }
              }
            }
          }
          equityCompanyStyles {
            id
            marketCaps {
              id
              type
              weight
              items {
                id
                type
                weight
                contributors {
                  id
                  weight
                  underlyingAsset {
                    ... on Security {
                      isin
                      name
                    }
                    ... on CryptoCoin {
                      ticker
                      name
                    }
                  }
                }
              }
              contributors {
                id
                weight
                underlyingAsset {
                  ... on Security {
                    isin
                    name
                  }
                  ... on CryptoCoin {
                    ticker
                    name
                  }
                }
              }
            }
          }
          fixedIncomeRatings {
            id
            investmentGrade {
              id
              name
              weight
              contributors {
                id
                weight
                underlyingAsset {
                  ... on Security {
                    isin
                    name
                    inventory {
                      position {
                        filled
                      }
                    }
                  }
                  ... on CryptoCoin {
                    ticker
                    name
                  }
                }
              }
            }
            speculativeGrade {
              id
              name
              weight
              contributors {
                id
                weight
                underlyingAsset {
                  ... on Security {
                    isin
                    name
                    inventory {
                      position {
                        filled
                      }
                    }
                  }
                  ... on CryptoCoin {
                    ticker
                    name
                  }
                }
              }
            }
            unratedGrade {
              id
              name
              weight
              contributors {
                id
                weight
                underlyingAsset {
                  ... on Security {
                    isin
                    name
                    inventory {
                      position {
                        filled
                      }
                    }
                  }
                  ... on CryptoCoin {
                    ticker
                    name
                  }
                }
              }
            }
            showSpeculativeInvestmentWarning
          }
          payments {
            id
            totalDistributions
            totalInterest
          }
          trialPeriod {
            id
            isEligible
            isRunning
            startDate {
              time
            }
            durationInHours
          }
        }
      }
    }
  }
}
"#;

pub const BROKER_HOLDINGS_QUERY: &'static str = r#"
query BrokerHoldings(
  $accountId: ID!
  $portfolioId: ID!
  $includeYearToDate: Boolean!
  $quoteSource: MarketDataSource
) {
  account(id: $accountId) {
    brokerPortfolio(id: $portfolioId) {
      inventory {
        items {
          isin
          name
          type
          inventory {
            position {
              filled
              pending
              blocked
              fifoPrice
            }
          }
          portfolioIsinPerformance {
            valuation
            currency
          }
          quoteTick(source: $quoteSource, includeYearToDate: $includeYearToDate) {
            midPrice
            currency
            timestampUtc {
              time
            }
            isOutdated
          }
        }
      }
    }
  }
}
"#;

pub const BROKER_CHART_QUERY: &'static str = r#"
query BrokerChart($isin: String!, $timeFrames: [TimeFrame!]!, $includeYearToDate: Boolean!) {
  timeSeriesBySecurity(
    isin: $isin
    timeFrames: $timeFrames
    includeYearToDate: $includeYearToDate
  ) {
    isin
    timeFrame
    currency
    source
    closingReferencePoint {
      midPrice
      timestampUtc {
        time
      }
    }
    dataPoints {
      midPrice
      timestampUtc {
        time
      }
    }
  }
}
"#;

pub const BROKER_TRANSACTIONS_QUERY: &'static str = r#"
query BrokerTransactions($accountId: ID!, $portfolioId: ID!, $input: BrokerTransactionInput!) {
  account(id: $accountId) {
    brokerPortfolio(id: $portfolioId) {
      moreTransactions(input: $input) {
        cursor
        total
        transactions {
          __typename
          id
          currency
          type
          status
          isCancellation
          lastEventDateTime
          description
          custodian
          documents {
            id
            url
            label
          }
          ... on BrokerSecurityTransactionSummary {
            isin
            securityTransactionType
            quantity
            amount
            side
            limitPrice
            stopPrice
          }
          ... on BrokerCashTransactionSummary {
            relatedIsin
            cashTransactionType
            amount
          }
          ... on BrokerNonTradeSecurityTransactionSummary {
            isin
            nonTradeSecurityTransactionType
            quantity
            amount
          }
          ... on BrokerEltifTransactionSummary {
            isin
            securityTransactionType
            eltifQuantity
            amount
            side
          }
        }
      }
    }
  }
}
"#;

pub const BROKER_TRANSACTION_DETAILS_QUERY: &'static str = r#"
query BrokerTransactionDetails($accountId: ID!, $portfolioId: ID!, $transactionId: ID!) {
  account(id: $accountId) {
    brokerPortfolio(id: $portfolioId) {
      transactionDetails(id: $transactionId) {
        __typename
        id
        currency
        type
        documents {
          id
          url
          label
        }
        lastEventDateTime
        isPending
        isCancellation
        security {
          isin
          name
          type
        }
        transactionReference
        ... on BrokerSecurityTransaction {
          side
          status
          numberOfShares {
            filled
            total
          }
          averagePrice
          totalAmount
          finalisationReason
          limitPrice
          stopPrice
          validUntil
          isCancellationRequested
          tradeTransactionAmounts {
            marketValuation
            taxAmount
            transactionFee
            venueFee
            cryptoSpreadFee
          }
          tradingVenue
          fee
          transactionalFee
          taxes
          aggregatedTransactionTaxes {
            totalTax
            capitalGainsTax
            churchTax
            solidarityTax
            sourceTax
            financialTransactionTax
          }
          securityTransactionHistory: transactionHistory {
            state
            time {
              time
              epochSecond
              epochMillisecond
            }
            numberOfShares {
              filled
              total
            }
            executionPrice
          }
          orderKind
          linkedTransactions {
            id
          }
          trailingStopInfo {
            trailType
            trailOffset
            latestStopPriceTimestamp {
              time
              epochSecond
              epochMillisecond
            }
          }
        }
        ... on BrokerCashTransaction {
          cashTransactionType
          amount
          description
          cashTransactionHistory: transactionHistory {
            state
            time {
              time
              epochSecond
              epochMillisecond
            }
          }
          sddiDetails {
            fee
            grossAmount
          }
          taxDetails {
            grossAmount
            taxAmount
          }
          linkedTransactions {
            id
          }
        }
        ... on BrokerNonTradeSecurityTransaction {
          isin
          nonTradeSecurityTransactionType
          quantity
          nonTradeAveragePrice: averagePrice
          nonTradeSecurityAmount: totalAmount
          description
          nonTradeSecurityTransactionHistory: transactionHistory {
            state
            time {
              time
              epochSecond
              epochMillisecond
            }
          }
          linkedTransactions {
            id
          }
        }
        ... on BrokerEltifTransaction {
          status
          side
          orderKind
          amount
          finalisationReason
          eltifQuantity
          executionPrice
          executionDate
          earliestSellDate
          marketValuation
          cancelableDetails {
            daysLeft
            isCancelable
          }
          isMultipleOrdersCancellation
          isInitialInvestment
          tradingVenue
          eltifTransactionHistory: transactionHistory {
            state
            amount
            eltifQuantity
            executionPrice
            time {
              time
              epochSecond
              epochMillisecond
            }
          }
          linkedTransactions {
            id
          }
        }
      }
    }
  }
}
"#;

pub const BROKER_WATCHLIST_QUERY: &'static str = r#"
query BrokerWatchlist(
  $accountId: ID!
  $portfolioId: ID!
  $includeYearToDate: Boolean!
  $quoteSource: MarketDataSource
) {
  account(id: $accountId) {
    brokerPortfolio(id: $portfolioId) {
      watchlist {
        items {
          isin
          name
          type
          quoteTick(source: $quoteSource, includeYearToDate: $includeYearToDate) {
            midPrice
            currency
            timestampUtc {
              time
            }
            isOutdated
          }
        }
      }
    }
  }
}
"#;

pub const BROKER_ADD_TO_WATCHLIST_MUTATION: &'static str = r#"
mutation BrokerAddToWatchlist($portfolioId: ID!, $isin: ID!, $input: UpdateWatchlistInput!) {
  addToWatchlist(portfolioId: $portfolioId, input: $input) {
    security(isin: $isin) {
      isin
      isOnWatchlist
    }
  }
}
"#;

pub const BROKER_REMOVE_FROM_WATCHLIST_MUTATION: &'static str = r#"
mutation BrokerRemoveFromWatchlist($portfolioId: ID!, $isin: ID!, $input: UpdateWatchlistInput!) {
  removeFromWatchlist(portfolioId: $portfolioId, input: $input) {
    security(isin: $isin) {
      isin
      isOnWatchlist
    }
  }
}
"#;

pub const BROKER_REMOVE_SAVINGS_PLAN_MUTATION: &'static str = r#"
mutation BrokerRemoveSavingsPlan($portfolioId: ID!, $isin: ID!) {
  removeSavingsPlan(portfolioId: $portfolioId, input: { isin: $isin }) {
    id
  }
}
"#;

pub const BROKER_SEARCH_QUERY: &'static str = r#"
query BrokerSecuritySearch(
  $accountId: ID!
  $portfolioId: ID!
  $searchTerm: String!
  $includeYearToDate: Boolean!
  $quoteSource: MarketDataSource
) {
  account(id: $accountId) {
    brokerPortfolio(id: $portfolioId) {
      simpleSecuritySearch(searchTerm: $searchTerm) {
        items {
          isin
          name
          type
          quoteTick(source: $quoteSource, includeYearToDate: $includeYearToDate) {
            midPrice
            currency
            timestampUtc {
              time
            }
            isOutdated
          }
        }
      }
    }
  }
}
"#;

pub const BROKER_DERIVATIVES_SEARCH_QUERY: &'static str = r#"
query BrokerDerivativesSearch(
  $accountId: ID!
  $portfolioId: ID!
  $input: DerivativeSearchInput!
) {
  account(id: $accountId) {
    brokerPortfolio(id: $portfolioId) {
      derivativesSearch(input: $input) {
        pagination {
          offset
          limit
          totalAvailable
        }
        results {
          __typename
          id
          isin
          underlyingIsin
          issuer
          ... on KnockoutSearchResult {
            premiumPercentage
            expiryDate {
              date {
                date
                epochDay
              }
              isOpenEnd
            }
            leverage
            knockoutBarrier {
              __typename
              ... on Money {
                currencyIsoCode
                value
              }
              ... on Point {
                value
              }
            }
            distanceToKnockout
            strike {
              __typename
              ... on Money {
                currencyIsoCode
                value
              }
              ... on Point {
                value
              }
            }
            distanceToStrike
            productSubcategory
            premiumAbsolute {
              currencyIsoCode
              value
            }
            strategy
          }
          ... on WarrantSearchResult {
            expiryDate {
              epochDay
            }
            strike {
              __typename
              ... on Money {
                currencyIsoCode
                value
              }
              ... on Point {
                value
              }
            }
            distanceToStrike
            strategy
            omega
            delta
            impliedVolatility
          }
          ... on FactorCertificateSearchResult {
            expiryDate {
              date {
                date
                epochDay
              }
              isOpenEnd
            }
            strategy
            factor
          }
        }
      }
    }
  }
}
"#;

pub const BROKER_QUOTE_QUERY: &'static str = r#"
query BrokerQuote(
  $accountId: ID!
  $portfolioId: ID!
  $isin: ID!
  $includeYearToDate: Boolean!
  $quoteSource: MarketDataSource
) {
  account(id: $accountId) {
    brokerPortfolio(id: $portfolioId) {
      security(isin: $isin) {
        id
        isin
        name
        type
        quoteTick(source: $quoteSource, includeYearToDate: $includeYearToDate) {
          id
          isin
          midPrice
          currency
          bidPrice
          askPrice
          isOutdated
          timestampUtc {
            time
          }
          performanceDate {
            date
          }
          performancesByTimeframe {
            timeframe
            performance
            simpleAbsoluteReturn
          }
        }
      }
    }
  }
}
"#;

pub const BROKER_SECURITY_NEWS_QUERY: &'static str = r#"
query BrokerSecurityNews($isin: ID!, $locale: String!) {
  securityNews(isin: $isin, locale: $locale) {
    isin
    shortNewsSummary
    longNewsSummary
    lastUpdated {
      time
    }
    sources {
      id
      headline
      sourceName
      publicationTime {
        time
      }
    }
  }
}
"#;

pub const BROKER_PRICE_ALERTS_QUERY: &'static str = r#"
query BrokerPriceAlerts($accountId: ID!, $portfolioId: ID!, $activeOnly: Boolean!) {
  account(id: $accountId) {
    brokerPortfolio(id: $portfolioId) {
      priceAlerts(activeOnly: $activeOnly) {
        itemsPerInstrument {
          canAddNew
          items {
            id
            direction
            isActive
            price
            triggeredTimestamp {
              time
            }
            security {
              isin
              name
              type
            }
          }
        }
      }
    }
  }
}
"#;

pub const BROKER_CRYPTO_PRICE_ALERTS_QUERY: &'static str = r#"
query BrokerCryptoPriceAlerts($accountId: ID!, $portfolioId: ID!) {
  account(id: $accountId) {
    brokerPortfolio(id: $portfolioId) {
      crypto {
        priceAlerts {
          itemsPerInstrument {
            canAddNew
            items {
              id
              direction
              isActive
              price
              triggeredTimestamp {
                time
              }
              coin {
                ticker
                name
              }
            }
          }
        }
      }
    }
  }
}
"#;

pub const BROKER_ADD_PRICE_ALERT_MUTATION: &'static str = r#"
mutation BrokerAddPriceAlert($portfolioId: ID!, $isin: ID!, $price: PositiveBigDecimal!) {
  addPriceAlert(portfolioId: $portfolioId, input: {isin: $isin, price: $price}) {
    security(isin: $isin) {
      priceAlerts {
        canAddNew
        items {
          id
          direction
          isActive
          price
          triggeredTimestamp {
            time
          }
          security {
            isin
            name
            type
          }
        }
      }
    }
  }
}
"#;

pub const BROKER_ADD_CRYPTO_PRICE_ALERT_MUTATION: &'static str = r#"
mutation BrokerAddCryptoPriceAlert($portfolioId: ID!, $ticker: ID!, $price: PositiveBigDecimal!) {
  addCryptoPriceAlert(portfolioId: $portfolioId, input: {ticker: $ticker, price: $price}) {
    crypto {
      coin(ticker: $ticker) {
        ticker
        name
        priceAlerts {
          canAddNew
          items {
            id
            direction
            isActive
            price
            triggeredTimestamp {
              time
            }
            coin {
              ticker
              name
            }
          }
        }
      }
    }
  }
}
"#;

pub const BROKER_REMOVE_PRICE_ALERT_MUTATION: &'static str = r#"
mutation BrokerRemovePriceAlert($portfolioId: ID!, $alertId: ID!) {
  removePriceAlert(portfolioId: $portfolioId, input: {id: $alertId}) {
    id
  }
}
"#;

pub const BROKER_REMOVE_CRYPTO_PRICE_ALERT_MUTATION: &'static str = r#"
mutation BrokerRemoveCryptoPriceAlert($portfolioId: ID!, $alertId: ID!) {
  removeCryptoPriceAlert(portfolioId: $portfolioId, input: {id: $alertId}) {
    id
  }
}
"#;

pub const BROKER_LIMITS_QUERY: &'static str = r#"
query BrokerLimits($accountId: ID!, $portfolioId: ID!) {
  account(id: $accountId) {
    brokerPortfolio(id: $portfolioId) {
      depositLimits {
        min
        max
      }
      withdrawalLimits {
        min
        max
        maxExcludingCredit
      }
      payments {
        buyingPower {
          cashBalance
          liveLimit
          loaned
          pendingBuyOrdersAmount
          pendingWithdrawalsAmount
          pendingSavingsPlanAmount
          pendingDividendsReinvestmentAmount
          pendingPocketMoneyAmount
          estimatedTaxes
          directDebit
          cashAvailableToInvest
          cashAvailableToInvestWithoutCredit
        }
        derivativesBuyingPower {
          cashAvailableToInvest
          derivativesDirectDebit
          pendingELTIFAmount
          cashAvailableForDerivatives
        }
        withdrawalPower {
          cashAvailableToInvest
          sellTradesAmount
          withdrawalDirectDebit
          cashAvailableForWithdrawal
        }
      }
    }
  }
}
"#;

pub const BROKER_SAVINGS_PLANS_QUERY: &'static str = r#"
query BrokerSavingsPlans($accountId: ID!, $portfolioId: ID!) {
  account(id: $accountId) {
    brokerPortfolio(id: $portfolioId) {
      totalSavingsPlanAmount
      inventory {
        items {
          isin
          name
          type
          inventory {
            savingsPlan {
              isin
              amount
              frequency
              dayOfTheMonth
              dynamizationRate
              paymentMethod
              nextExecutionDate {
                date
                epochDay
              }
            }
          }
        }
      }
      crypto {
        coins {
          ticker
          name
          savingsPlanAmount
        }
      }
    }
  }
}
"#;

pub const BROKER_SAVINGS_PLAN_CONFIG_QUERY: &'static str = r#"
query BrokerSavingsPlanConfig($accountId: ID!, $portfolioId: ID!, $isin: ID!) {
  account(id: $accountId) {
    brokerPortfolio(id: $portfolioId) {
      security(isin: $isin) {
        isin
        name
        type
        savingsPlanConfiguration {
          schedules {
            dayOfTheMonth
            isEarliest
            isDefault
            yearMonths {
              yearMonth
              isAvailable
            }
          }
          minSavingsPlanAmount
          maxSavingsPlanAmount
          defaultMinSavingsPlanAmount
          dynamizationRates
          defaultDynamizationRate
          paymentMethods
          frequencies
          nextInstructedExecutionDate {
            date
            epochDay
          }
        }
      }
    }
  }
}
"#;

pub const BROKER_SAVINGS_PLAN_EX_ANTE_COSTS_QUERY: &'static str = r#"
query BrokerSavingsPlanExAnteCost($accountId: ID!, $portfolioId: ID!, $isin: String!, $frequency: SavingsPlanFrequency!, $amount: PositiveBigDecimal!, $venue: TradingVenue!) {
  account(id: $accountId) {
    brokerPortfolio(id: $portfolioId) {
      savingsPlanExAnteCosts(input: { isin: $isin, frequency: $frequency, amount: $amount, venue: $venue }) {
        id
        entryCosts {
          productCosts { amount percentage }
          serviceCosts { amount percentage }
          total { amount percentage }
        }
        ongoingCosts {
          productCosts { amount percentage }
          serviceCosts { amount percentage }
          total { amount percentage }
        }
        exitCosts {
          productCosts { amount percentage }
          serviceCosts { amount percentage }
          total { amount percentage }
        }
        effectOnReturn {
          initialYearCosts { amount percentage }
          followingYearsCosts { amount percentage }
          finalYearCosts { amount percentage }
        }
        fiveYearsCosts { amount percentage }
        incidentalCosts { amount percentage }
      }
    }
  }
}
"#;

pub const BROKER_CREATE_OR_UPDATE_SAVINGS_PLAN_MUTATION: &'static str = r#"
mutation BrokerCreateOrUpdateSavingsPlan($portfolioId: ID!, $input: CreateOrUpdateSavingsPlanInput!) {
  createOrUpdateSavingsPlan(portfolioId: $portfolioId, input: $input) {
    id
  }
}
"#;

pub const BROKER_SAVINGS_PLAN_BY_ISIN_QUERY: &'static str = r#"
query BrokerSavingsPlanByIsin($accountId: ID!, $portfolioId: ID!, $isin: ID!) {
  account(id: $accountId) {
    brokerPortfolio(id: $portfolioId) {
      security(isin: $isin) {
        isin
        name
        type
        inventory {
          savingsPlan {
            isin
            amount
            frequency
            dayOfTheMonth
            dynamizationRate
            paymentMethod
            nextExecutionDate {
              date
              epochDay
            }
          }
        }
      }
    }
  }
}
"#;

pub const BROKER_PORTFOLIO_GROUPS_QUERY: &'static str = r#"
query BrokerPortfolioGroups($accountId: ID!, $portfolioId: ID!) {
  account(id: $accountId) {
    brokerPortfolio(id: $portfolioId) {
      inventory {
        portfolioGroups {
          offerAllowsAdditionalPortfolioGroup
          maxPortfolioGroupsPerPortfolioReached
          items {
            id
            details {
              id
              name
              description
            }
            numberOfPendingOrders
            savingsPlansAmount
            performance {
              id
              valuation
              currency
              performancesByTimeframe {
                timeframe
                performance
                simpleAbsoluteReturn
              }
            }
            items {
              id
              isin
              name
              type
            }
          }
        }
        ungroupedInventoryItems {
          items {
            id
            isin
            name
            type
          }
        }
      }
    }
  }
}
"#;

pub const BROKER_CREATE_PORTFOLIO_GROUP_MUTATION: &'static str = r#"
mutation BrokerCreatePortfolioGroup($portfolioId: ID!, $input: CreatePortfolioGroupInput!) {
  createPortfolioGroup(portfolioId: $portfolioId, input: $input) {
    portfolioGroup {
      id
    }
  }
}
"#;

pub const BROKER_UPDATE_PORTFOLIO_GROUP_MUTATION: &'static str = r#"
mutation BrokerUpdatePortfolioGroup($portfolioId: ID!, $input: ModifyPortfolioGroupInput!) {
  modifyPortfolioGroup(portfolioId: $portfolioId, input: $input) {
    id
  }
}
"#;

pub const BROKER_DELETE_PORTFOLIO_GROUP_MUTATION: &'static str = r#"
mutation BrokerDeletePortfolioGroup($portfolioId: ID!, $input: DeletePortfolioGroupInput!) {
  deletePortfolioGroup(portfolioId: $portfolioId, input: $input) {
    id
  }
}
"#;

pub const BROKER_ASSIGN_PORTFOLIO_GROUP_ITEMS_MUTATION: &'static str = r#"
mutation BrokerAssignPortfolioGroupItems($portfolioId: ID!, $input: ModifyPortfolioGroupInput!) {
  modifyPortfolioGroup(portfolioId: $portfolioId, input: $input) {
    id
  }
}
"#;

pub const BROKER_UNASSIGN_PORTFOLIO_GROUP_ITEMS_MUTATION: &'static str = r#"
mutation BrokerUnassignPortfolioGroupItems($portfolioId: ID!, $input: ModifyPortfolioGroupInput!) {
  modifyPortfolioGroup(portfolioId: $portfolioId, input: $input) {
    id
  }
}
"#;

pub const DISCOVER_OVERNIGHT_ACCOUNTS_QUERY: &'static str = r#"
query DiscoverOvernightAccounts($accountId: ID!) {
  account(id: $accountId) {
    savingsAccounts {
      __typename
      id
      owners {
        firstName
        lastName
      }
      personalizations {
        name
      }
      state
    }
  }
  productList(personId: $accountId) {
    minors {
      id
      name
      type
      onboardingState
      state
      owners {
        id
        firstName
        lastName
      }
      productOffering {
        name
        displayName
      }
    }
  }
}
"#;

pub const OVERNIGHT_SUMMARY_QUERY: &'static str = r#"
query OvernightSummary($accountId: ID!, $savingsAccountId: ID!) {
  account(id: $accountId) {
    savingsAccount(id: $savingsAccountId) {
      id
      ... on OvernightSavingsAccount {
        interests {
          currentAccruedAmount
          currentInterestBearingAmount
          depositAccruedLifetimeAmount
          depositInterestRate
          estimatedNextPayoutAmount
          nextPayoutDate {
            epochSecond
          }
        }
        nextPayoutDate {
          epochSecond
        }
        totalAmount
      }
    }
  }
}
"#;

pub const OVERNIGHT_TRANSACTIONS_QUERY: &'static str = r#"
query OvernightTransactions(
  $accountId: ID!
  $savingsAccountId: ID!
  $input: SavingsAccountCashTransactionInput!
) {
  account(id: $accountId) {
    savingsAccount(id: $savingsAccountId) {
      id
      moreTransactions(input: $input) {
        cursor
        total
        transactions {
          id
          currency
          type
          status
          isCancellation
          lastEventDateTime
          description
          cashTransactionType
          amount
          custodian
          relatedIsin
          documents {
            id
            label
            url
          }
        }
      }
    }
  }
}
"#;

pub const TRADE_TRADABILITY_QUERY: &'static str = r#"
query getTradingTradability($personId: ID!, $isin: ID!, $portfolioId: ID!) {
  account(id: $personId) {
    id
    brokerPortfolio(id: $portfolioId) {
      id
      appropriatenessInfo {
        id
        appropriatenessId
        result
      }
      suitabilityStatuses {
        id
        suitabilityType
        result
        suitabilityId
      }
      featureFlags {
        knockoutWarnings
      }
      security(isin: $isin) {
        id
        requiredSuitability {
          suitabilityType
          actionWhenUnsuitable
        }
        buyTradabilityForTrading {
          id
          tradabilityStatus
          venues {
            venue
            tradabilityStatus
            unavailabilityReason
          }
          primaryVenue {
            venue
            status
          }
        }
        sellTradabilityForTrading {
          id
          tradabilityStatus
          venues {
            venue
            tradabilityStatus
            unavailabilityReason
          }
          primaryVenue {
            venue
            status
          }
        }
        inventory {
          position {
            sellableByVenue {
              venue
              sellable
            }
          }
        }
      }
    }
  }
}
"#;

pub const TRADE_APPROPRIATENESS_RESULT_QUERY: &'static str = r#"
query getAppropriatenessResult($personId: ID!, $portfolioId: ID!) {
  account(id: $personId) {
    id
    brokerPortfolio(id: $portfolioId) {
      id
      appropriatenessInfo {
        id
        appropriatenessId
        result
      }
    }
  }
}
"#;

pub const TRADE_APPROPRIATENESS_WARNING_QUERY: &'static str = r#"
query getBrokerAppropriatenessWarning($locale: String!) {
  brokerAppropriatenessWarning(locale: $locale) {
    id
    version
    locale
    promptText
    acknowledgementText
  }
}
"#;

pub const TRADE_SECURITY_TICK_QUERY: &'static str = r#"
query getSecurityTick(
  $personId: ID!
  $isin: ID!
  $portfolioId: ID!
  $includeYearToDate: Boolean
  $source: MarketDataSource
) {
  account(id: $personId) {
    id
    brokerPortfolio(id: $portfolioId) {
      id
      security(isin: $isin) {
        id
        isin
        quoteTick(source: $source, includeYearToDate: $includeYearToDate) {
          askPrice
          bidPrice
          midPrice
          currency
          isOutdated
          timestampUtc {
            time
          }
        }
        issuerLinks {
          kidLinks {
            isPrimary
            url
            locale
          }
        }
      }
    }
  }
}
"#;

pub const TRADE_SINGLE_EX_ANTE_COSTS_QUERY: &'static str = r#"
query getSingleTradeExAnteCost(
  $personId: ID!
  $isin: String!
  $side: OrderSide!
  $estimatedOrderVolume: BigDecimal!
  $numberOfShares: BigDecimal!
  $venue: TradingVenue!
  $isWholePositionSold: Boolean!
  $portfolioId: ID!
) {
  account(id: $personId) {
    id
    brokerPortfolio(id: $portfolioId) {
      id
      singleTradeExAnteCosts(
        input: {
          isin: $isin
          side: $side
          venue: $venue
          estimatedOrderVolume: $estimatedOrderVolume
          numberOfShares: $numberOfShares
          isWholePositionSold: $isWholePositionSold
        }
      ) {
        id
        entryCosts {
          productCosts {
            amount
            percentage
          }
          serviceCosts {
            amount
            percentage
          }
          total {
            amount
            percentage
          }
        }
        ongoingCosts {
          productCosts {
            amount
            percentage
          }
          serviceCosts {
            amount
            percentage
          }
          total {
            amount
            percentage
          }
        }
        exitCosts {
          productCosts {
            amount
            percentage
          }
          serviceCosts {
            amount
            percentage
          }
          total {
            amount
            percentage
          }
        }
        effectOnReturn {
          initialYearCosts {
            amount
            percentage
          }
          followingYearsCosts {
            amount
            percentage
          }
          finalYearCosts {
            amount
            percentage
          }
        }
        fiveYearsCosts {
          amount
          percentage
        }
        incidentalCosts {
          amount
          percentage
        }
      }
    }
  }
}
"#;

pub const TRADE_FILL_FORECAST_MUTATION: &'static str = r#"
mutation createFillForecast($portfolioId: ID!, $input: FillForecastInput!) {
  createFillForecast(portfolioId: $portfolioId, input: $input) {
    statusCategory
    fillForecastResponse {
      id
      limitFillProbabilities
      limitRelativePrices
      stopFillProbabilities
      stopRelativePrices
      validUntil {
        epochSecond
      }
    }
  }
}
"#;

pub const TRADE_PLACE_ORDER_MUTATION: &'static str = r#"
mutation placeOrder($input: BrokerOrderInput!, $portfolioId: ID!, $isBuy: Boolean!) {
  placeOrder(portfolioId: $portfolioId, input: $input) {
    brokerPortfolio {
      id
    }
    orderData {
      orderId
      isMarketable @include(if: $isBuy)
    }
  }
}
"#;

pub const TRADE_CANCEL_ORDER_MUTATION: &'static str = r#"
mutation BrokerCancelOrder($portfolioId: ID!, $orderId: ID!) {
  cancelOrder(portfolioId: $portfolioId, input: { orderId: $orderId }) {
    id
  }
}
"#;

pub const RESOLVE_BROKER_IDS_QUERY: &'static str = r#"
query ResolveBrokerIds($id: ID!) {
  account(id: $id) {
    id
    brokerPortfolios {
      id
    }
  }
}
"#;

pub const WHOAMI_QUERY: &'static str = r#"
query WhoAmI($id: ID!) {
  personOverview(id: $id) {
    id
    externalId
    locale
    personalDetails {
      firstName
      lastName
    }
  }
}
"#;

} // verus!
