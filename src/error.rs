//! Errors of position accounting.
use vstd::prelude::*;

verus! {

/// Why a position could not be built, entered or exited.
#[derive(Clone, Copy, Debug, PartialEq, Eq, Structural)]
pub enum PortfolioError {
    BuilderIncomplete,
    CalcProfitLossError,
    ParseEntryDirectionError,
    CannotEnterPositionWithExitFill,
    CannotExitPositionWithEntryFill,
}

impl PortfolioError {
    pub open spec fn spec_message(self) -> Seq<char> {
        match self {
            PortfolioError::BuilderIncomplete => "Failed to build struct due to incomplete attributes provided"@,
            PortfolioError::CalcProfitLossError => "Failed to calculate PnL due to no Fee::TotalFee in HashMap<Fee, FeeAmount>"@,
            PortfolioError::ParseEntryDirectionError => "Failed to parse Position entry direction due to ambiguous fill quantity & Decision."@,
            PortfolioError::CannotEnterPositionWithExitFill => "Cannot enter Position with an exit decision FillEvent."@,
            PortfolioError::CannotExitPositionWithEntryFill => "Cannot exit Position with an entry decision FillEvent."@,
        }
    }

    /// The fixed message of each kind of error.
    pub fn message(&self) -> (r: &'static str)
        ensures
            r@ == self.spec_message(),
    {
        match self {
            PortfolioError::BuilderIncomplete => {
                proof {
                    reveal_strlit("Failed to build struct due to incomplete attributes provided");
                }
                "Failed to build struct due to incomplete attributes provided"
            },
            PortfolioError::CalcProfitLossError => {
                proof {
                    reveal_strlit("Failed to calculate PnL due to no Fee::TotalFee in HashMap<Fee, FeeAmount>");
                }
                "Failed to calculate PnL due to no Fee::TotalFee in HashMap<Fee, FeeAmount>"
            },
            PortfolioError::ParseEntryDirectionError => {
                proof {
                    reveal_strlit("Failed to parse Position entry direction due to ambiguous fill quantity & Decision.");
                }
                "Failed to parse Position entry direction due to ambiguous fill quantity & Decision."
            },
            PortfolioError::CannotEnterPositionWithExitFill => {
                proof {
                    reveal_strlit("Cannot enter Position with an exit decision FillEvent.");
                }
                "Cannot enter Position with an exit decision FillEvent."
            },
            PortfolioError::CannotExitPositionWithEntryFill => {
                proof {
                    reveal_strlit("Cannot exit Position with an entry decision FillEvent.");
                }
                "Cannot exit Position with an entry decision FillEvent."
            },
        }
    }
}

} // verus!
